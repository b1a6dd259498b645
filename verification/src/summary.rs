//! A summary trait exercise: types that present a one-line summary.

use vstd::prelude::*;
use vstd::string::StringExecFns;

verus! {

/// Types that can present a short summary of themselves, built around an
/// author tag. Implementors that give no tag of their own fall back to a
/// placeholder.
pub trait Summary {
    /// The author tag the summary lines speak of.
    open spec fn spec_author(&self) -> Seq<char> {
        "[implement later]"@
    }

    /// The author tag as a string.
    fn summarize_author(&self) -> (r: String)
        ensures
            r@ == self.spec_author(),
    ;

    /// The one-line summary: `(Read more from <author>...)`.
    fn summarize(&self) -> (r: String)
        ensures
            r@ == "(Read more from "@ + self.spec_author() + "...)"@,
    {
        let author = self.summarize_author();
        String::from_str("(Read more from ").concat(author.as_str()).concat("...)")
    }
}

/// A news article, summarized by its author's name.
#[derive(Debug)]
pub struct NewsArticle {
    pub headline: String,
    pub location: String,
    pub author: String,
    pub content: String,
}

impl Summary for NewsArticle {
    open spec fn spec_author(&self) -> Seq<char> {
        self.author@
    }

    fn summarize_author(&self) -> (r: String) {
        self.author.clone()
    }
}

/// A blog post; keeps every fallback summary.
pub struct BlogPost {}

impl Summary for BlogPost {
    fn summarize_author(&self) -> (r: String) {
        String::from_str("[implement later]")
    }
}

/// A tweet, summarized by its username prefixed with `@`.
#[derive(Debug)]
pub struct Tweet {
    pub username: String,
    pub content: String,
    pub reply: bool,
    pub retweet: bool,
}

impl Summary for Tweet {
    open spec fn spec_author(&self) -> Seq<char> {
        "@"@ + self.username@
    }

    fn summarize_author(&self) -> (r: String) {
        String::from_str("@").concat(self.username.as_str())
    }
}

} // verus!
