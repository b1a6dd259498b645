use path_tracer::buffer::{BoundedBuffer, Buffer, CapacityExceeded, GrowableBuffer};
use path_tracer::heading::{Heading, InvalidHeading, Vector2};
use path_tracer::tracer::{PathTracer, TraceError};

fn heading(x: i64, y: i64) -> Heading {
    Heading(Vector2 { x, y })
}

#[test]
fn rotate_four_times_is_identity() {
    let cardinals = [(1, 0), (0, 1), (-1, 0), (0, -1)];
    for (x, y) in cardinals {
        let h = heading(x, y);
        let mut r = h;
        for _ in 0..4 {
            r = r.rotate_clockwise().unwrap();
        }
        assert_eq!(r, h);
    }
}

#[test]
fn rotate_mapping_is_exact() {
    assert_eq!(heading(1, 0).rotate_clockwise().unwrap(), heading(0, 1));
    assert_eq!(heading(0, 1).rotate_clockwise().unwrap(), heading(-1, 0));
    assert_eq!(heading(-1, 0).rotate_clockwise().unwrap(), heading(0, -1));
    assert_eq!(heading(0, -1).rotate_clockwise().unwrap(), heading(1, 0));
}

#[test]
fn rotate_rejects_non_cardinal() {
    let bad = heading(2, 0);
    assert_eq!(
        bad.rotate_clockwise(),
        Err(InvalidHeading {
            found: Vector2 { x: 2, y: 0 }
        })
    );
    assert_eq!(
        heading(0, 0).rotate_clockwise(),
        Err(InvalidHeading {
            found: Vector2 { x: 0, y: 0 }
        })
    );
}

#[test]
fn stroke_increases_head_by_n() {
    let buffer = BoundedBuffer::new(10);
    let mut tracer = PathTracer::new(Vector2 { x: 0, y: 0 }, heading(1, 0), buffer);
    assert_eq!(tracer.buffer.head(), 0);
    assert_eq!(tracer.stroke(3), Ok(()));
    assert_eq!(tracer.buffer.head(), 3);
    assert_eq!(tracer.stroke(2), Ok(()));
    assert_eq!(tracer.buffer.head(), 5);
}

#[test]
fn movement_rule_swaps_axes() {
    let mut tracer = PathTracer::new(Vector2 { x: 0, y: 0 }, heading(1, 0), GrowableBuffer::new());
    assert_eq!(tracer.stroke(1), Ok(()));
    assert_eq!(tracer.position, Vector2 { x: 0, y: 1 });

    let mut tracer = PathTracer::new(Vector2 { x: 0, y: 1 }, heading(0, 1), GrowableBuffer::new());
    assert_eq!(tracer.stroke(1), Ok(()));
    assert_eq!(tracer.position, Vector2 { x: 1, y: 1 });
}

#[test]
fn scenario_two_strokes_with_a_turn() {
    let buffer = BoundedBuffer::new(25);
    let mut tracer = PathTracer::new(Vector2 { x: 0, y: 0 }, heading(1, 0), buffer);
    assert_eq!(tracer.stroke(4), Ok(()));
    assert_eq!(tracer.turn_right(), Ok(()));
    assert_eq!(tracer.stroke(4), Ok(()));
    assert_eq!(tracer.buffer.head(), 8);
    assert_eq!(tracer.heading, heading(0, 1));
    let expected = [
        (0, 1),
        (0, 2),
        (0, 3),
        (0, 4),
        (1, 4),
        (2, 4),
        (3, 4),
        (4, 4),
    ];
    for (i, (x, y)) in expected.into_iter().enumerate() {
        assert_eq!(tracer.buffer.entry(i), Vector2 { x, y });
    }
    assert_eq!(tracer.position, Vector2 { x: 4, y: 4 });
}

#[test]
fn capacity_exceeded_at_fifth_step() {
    let buffer = BoundedBuffer::new(4);
    let mut tracer = PathTracer::new(Vector2 { x: 0, y: 0 }, heading(1, 0), buffer);
    let result = tracer.stroke(5);
    assert_eq!(
        result,
        Err(TraceError::CapacityExceeded(CapacityExceeded {
            capacity: 4
        }))
    );
    assert_eq!(tracer.buffer.head(), 4);
    for (i, (x, y)) in [(0, 1), (0, 2), (0, 3), (0, 4)].into_iter().enumerate() {
        assert_eq!(tracer.buffer.entry(i), Vector2 { x, y });
    }
    assert_eq!(tracer.position, Vector2 { x: 0, y: 4 });
}

#[test]
fn capacity_exceeded_reached_by_small_strokes() {
    let buffer = BoundedBuffer::new(3);
    let mut tracer = PathTracer::new(Vector2 { x: 0, y: 0 }, heading(0, -1), buffer);
    assert_eq!(tracer.stroke(2), Ok(()));
    assert_eq!(tracer.stroke(1), Ok(()));
    assert_eq!(
        tracer.stroke(1),
        Err(TraceError::CapacityExceeded(CapacityExceeded {
            capacity: 3
        }))
    );
    assert_eq!(tracer.buffer.head(), 3);
}

#[test]
fn bounded_append_fails_only_at_capacity() {
    let mut buffer = BoundedBuffer::new(2);
    assert_eq!(buffer.capacity(), 2);
    assert_eq!(buffer.append(Vector2 { x: 1, y: 2 }), Ok(()));
    assert_eq!(buffer.append(Vector2 { x: 3, y: 4 }), Ok(()));
    assert_eq!(
        buffer.append(Vector2 { x: 5, y: 6 }),
        Err(CapacityExceeded { capacity: 2 })
    );
    assert_eq!(buffer.head(), 2);
    assert_eq!(buffer.entry(0), Vector2 { x: 1, y: 2 });
    assert_eq!(buffer.entry(1), Vector2 { x: 3, y: 4 });
    assert!(buffer.capacity_invariant());
}

#[test]
fn growable_buffer_never_fails() {
    let mut tracer = PathTracer::new(Vector2 { x: 0, y: 0 }, heading(-1, 0), GrowableBuffer::new());
    for _ in 0..10 {
        assert_eq!(tracer.stroke(100), Ok(()));
    }
    assert_eq!(tracer.buffer.head(), 1000);
    assert_eq!(tracer.position, Vector2 { x: 0, y: -1000 });
}

#[test]
fn turn_right_reports_non_cardinal_heading() {
    let mut tracer = PathTracer::new(Vector2 { x: 0, y: 0 }, heading(1, 0), GrowableBuffer::new());
    tracer.heading = heading(1, 1);
    assert_eq!(
        tracer.turn_right(),
        Err(InvalidHeading {
            found: Vector2 { x: 1, y: 1 }
        })
    );
    assert_eq!(tracer.heading, heading(1, 1));
}

#[test]
fn failed_stroke_keeps_recorded_prefix() {
    let buffer = BoundedBuffer::new(2);
    let mut tracer = PathTracer::new(Vector2 { x: 7, y: -3 }, heading(0, 1), buffer);
    assert!(tracer.stroke(4).is_err());
    assert_eq!(tracer.buffer.head(), 2);
    assert_eq!(tracer.buffer.entry(0), Vector2 { x: 8, y: -3 });
    assert_eq!(tracer.buffer.entry(1), Vector2 { x: 9, y: -3 });
    assert_eq!(tracer.position, Vector2 { x: 9, y: -3 });
}
