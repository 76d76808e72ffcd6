use chainsim::rng::{random_lowercase_bytes, DrawSource};
use chainsim::SCALE;

#[test]
fn scripted_source_replays_draws_in_order() {
    let mut src = DrawSource::scripted(vec![7, 0, 999_999]);
    assert_eq!(src.next_draw(), 7);
    assert_eq!(src.next_draw(), 0);
    assert_eq!(src.next_draw(), 999_999);
}

#[test]
fn scripted_draws_are_reduced_modulo_scale() {
    let mut src = DrawSource::scripted(vec![1_000_000, 1_000_001, u32::MAX]);
    assert_eq!(src.next_draw(), 0);
    assert_eq!(src.next_draw(), 1);
    assert_eq!(src.next_draw(), u32::MAX % SCALE);
}

#[test]
fn exhausted_script_yields_the_draw_that_never_fires() {
    let mut src = DrawSource::scripted(vec![5]);
    assert_eq!(src.next_draw(), 5);
    assert_eq!(src.next_draw(), SCALE - 1);
    assert_eq!(src.next_draw(), SCALE - 1);
}

#[test]
fn entropy_draws_stay_in_range() {
    let mut src = DrawSource::from_entropy();
    for _ in 0..100 {
        assert!(src.next_draw() < SCALE);
    }
}

#[test]
fn password_bytes_follow_the_script() {
    // 97 + draw % 26, one byte per draw.
    let mut src = DrawSource::scripted(vec![0, 1, 2, 25, 26]);
    let pw = random_lowercase_bytes(&mut src, 5);
    assert_eq!(pw, vec![b'a', b'b', b'c', b'z', b'a']);
}

#[test]
fn password_from_exhausted_script_is_uniform() {
    // The exhausted script yields SCALE - 1 = 999_999 on every draw, and
    // 999_999 % 26 == 13, the letter 'n'.
    let mut src = DrawSource::scripted(Vec::new());
    let pw = random_lowercase_bytes(&mut src, 3);
    assert_eq!(pw, vec![b'n', b'n', b'n']);
}

#[test]
fn password_from_entropy_is_lowercase_of_requested_length() {
    let mut src = DrawSource::from_entropy();
    let pw = random_lowercase_bytes(&mut src, 20);
    assert_eq!(pw.len(), 20);
    for b in pw {
        assert!(b.is_ascii_lowercase());
    }
}
