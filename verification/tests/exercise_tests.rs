use path_tracer::rectangle::{area, Rectangle};
use path_tracer::summary::{BlogPost, NewsArticle, Summary, Tweet};
use path_tracer::text::{first_word, longest};

#[test]
fn rectangle_area_is_width_times_height() {
    let rect = Rectangle {
        width: 30,
        height: 50,
    };
    assert_eq!(rect.area(), 1500);
    assert_eq!(area(&rect), 1500);
}

#[test]
fn rectangle_can_hold_is_strict() {
    let rect1 = Rectangle {
        width: 30,
        height: 50,
    };
    let rect2 = Rectangle {
        width: 1,
        height: 2,
    };
    assert!(rect1.can_hold(&rect2));
    assert!(!rect2.can_hold(&rect1));
    assert!(!rect1.can_hold(&rect1));
}

#[test]
fn rectangle_square_has_equal_sides() {
    let sq = Rectangle::square(3);
    assert_eq!(
        sq,
        Rectangle {
            width: 3,
            height: 3
        }
    );
    assert_eq!(sq.area(), 9);
}

#[test]
fn longest_picks_longer_string() {
    assert_eq!(longest("a really long sentence", "abc"), "a really long sentence");
    assert_eq!(longest("ab", "wxyz"), "wxyz");
}

#[test]
fn longest_tie_returns_second() {
    assert_eq!(longest("abc", "xyz"), "xyz");
}

#[test]
fn first_word_stops_at_first_space() {
    let sentence = String::from("Hello there");
    assert_eq!(first_word(&sentence), "Hello");
    let spaced = String::from("a b c");
    assert_eq!(first_word(&spaced), "a");
}

#[test]
fn first_word_of_single_word_is_whole() {
    let word = String::from("Hello");
    assert_eq!(first_word(&word), "Hello");
    let empty = String::new();
    assert_eq!(first_word(&empty), "");
}

#[test]
fn first_word_of_leading_space_is_empty() {
    let sentence = String::from(" leading");
    assert_eq!(first_word(&sentence), "");
}

#[test]
fn news_article_summary_names_author() {
    let article = NewsArticle {
        headline: String::from("Aliens say 'Hi'"),
        location: String::from("USA"),
        author: String::from("Jane Earthington"),
        content: String::from("Apparently they forgot something here"),
    };
    assert_eq!(article.summarize_author(), "Jane Earthington");
    assert_eq!(article.summarize(), "(Read more from Jane Earthington...)");
}

#[test]
fn tweet_summary_prefixes_username() {
    let tweet = Tweet {
        username: String::from("nasa"),
        content: String::from("aliens bro"),
        reply: false,
        retweet: false,
    };
    assert_eq!(tweet.summarize_author(), "@nasa");
    assert_eq!(tweet.summarize(), "(Read more from @nasa...)");
}

#[test]
fn blog_post_summary_uses_fallback() {
    let blog = BlogPost {};
    assert_eq!(blog.summarize_author(), "[implement later]");
    assert_eq!(blog.summarize(), "(Read more from [implement later]...)");
}
