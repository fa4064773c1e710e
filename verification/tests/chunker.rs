use voice_assistant::chunker::chunk;

fn concat(chunks: &[String]) -> String {
    let mut s = String::new();
    for c in chunks {
        s.push_str(c);
    }
    s
}

#[test]
fn empty_input_yields_zero_chunks() {
    let r = chunk("", 99);
    assert_eq!(r.len(), 0);
}

#[test]
fn empty_input_yields_zero_chunks_for_small_limit() {
    let r = chunk("", 1);
    assert_eq!(r.len(), 0);
}

#[test]
fn short_input_yields_one_whole_chunk() {
    let r = chunk("hello", 99);
    assert_eq!(r, vec!["hello".to_string()]);
}

#[test]
fn input_of_exactly_the_limit_yields_one_chunk() {
    let r = chunk("hello", 5);
    assert_eq!(r, vec!["hello".to_string()]);
}

#[test]
fn exact_multiple_splits_into_full_chunks() {
    let r = chunk("abcdef", 3);
    assert_eq!(r, vec!["abc".to_string(), "def".to_string()]);
}

#[test]
fn remainder_goes_into_a_shorter_final_chunk() {
    let r = chunk("abcdefg", 3);
    assert_eq!(r, vec!["abc".to_string(), "def".to_string(), "g".to_string()]);
}

#[test]
fn limit_of_one_splits_into_single_characters() {
    let r = chunk("abc", 1);
    assert_eq!(r, vec!["a".to_string(), "b".to_string(), "c".to_string()]);
}

#[test]
fn round_trip_reproduces_the_input() {
    let text = "The quick brown fox jumps over the lazy dog";
    for max_len in 1..=(text.len() + 1) {
        let r = chunk(text, max_len);
        assert_eq!(concat(&r), text);
    }
}

#[test]
fn every_chunk_is_within_the_bound_and_all_but_the_last_are_full() {
    let text = "The quick brown fox jumps over the lazy dog";
    for max_len in 1..=(text.len() + 1) {
        let r = chunk(text, max_len);
        for (i, c) in r.iter().enumerate() {
            assert!(c.chars().count() <= max_len);
            if i + 1 < r.len() {
                assert_eq!(c.chars().count(), max_len);
            }
        }
    }
}

#[test]
fn two_hundred_fifty_characters_make_three_chunks_of_99_99_52() {
    let text: String = std::iter::repeat("abcde").take(50).collect();
    assert_eq!(text.chars().count(), 250);
    let r = chunk(&text, 99);
    assert_eq!(r.len(), 3);
    let lengths: Vec<usize> = r.iter().map(|c| c.chars().count()).collect();
    assert_eq!(lengths, vec![99, 99, 52]);
    assert_eq!(concat(&r), text);
}

#[test]
fn splitting_counts_characters_not_bytes() {
    let text = "ábcdé";
    let r = chunk(text, 2);
    assert_eq!(r, vec!["áb".to_string(), "cd".to_string(), "é".to_string()]);
    assert_eq!(concat(&r), text);
}

#[test]
fn a_word_may_be_split_across_two_chunks() {
    let r = chunk("hello world", 8);
    assert_eq!(r, vec!["hello wo".to_string(), "rld".to_string()]);
}
