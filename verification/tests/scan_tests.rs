use pcre_scan::MatchEngine;

fn order_engine() -> MatchEngine {
    MatchEngine::new("\\d{4}[^\\d\\s]{3,11}\\S{1}").unwrap()
}

fn drain(re: &MatchEngine, text: &[u8]) -> Vec<(usize, usize)> {
    let mut it = re.find_iter(text);
    let mut out = Vec::new();
    loop {
        match it.next() {
            Some(span) => out.push(span),
            None => break,
        }
    }
    out
}

#[test]
fn one_span_with_inner_payload() {
    let re = order_engine();
    let text = "Order 20231012ABXY9 shipped";
    let spans = drain(&re, text.as_bytes());
    assert_eq!(spans, vec![(10, 19)]);
    assert_eq!(&text[10..19], "1012ABXY9");
    assert_eq!(&text[14..18], "ABXY");
    assert!(re.is_match(text.as_bytes()));
}

#[test]
fn empty_text_yields_nothing() {
    let re = order_engine();
    assert!(!re.is_match(b""));
    assert_eq!(drain(&re, b""), Vec::<(usize, usize)>::new());
    let mut it = re.find_iter(b"");
    assert_eq!(it.next(), None);
    assert_eq!(it.next(), None);
}

#[test]
fn bad_pattern_is_a_compile_error() {
    let err = match MatchEngine::new("(\\d{4}") {
        Ok(_) => panic!("an unbalanced group must not compile"),
        Err(err) => err,
    };
    let offset = err.offset().expect("a compile error carries an offset");
    assert_eq!(offset, 6);
    assert!(err.code() != 0);
    let message = err.message();
    assert!(!message.is_empty());
    assert!(message.contains("error"));
}

#[test]
fn two_disjoint_occurrences() {
    let re = order_engine();
    let text = b"1111abcX and 2222defY";
    let spans = drain(&re, text);
    assert_eq!(spans, vec![(0, 8), (13, 21)]);
    assert!(spans[1].0 >= spans[0].1);
}

#[test]
fn is_match_iff_scan_yields() {
    let re = order_engine();
    let texts: [&[u8]; 5] = [
        b"Order 20231012ABXY9 shipped",
        b"no digits here",
        b"",
        b"1111abcX and 2222defY",
        b"123 45 6789",
    ];
    for text in texts {
        assert_eq!(re.is_match(text), !drain(&re, text).is_empty());
    }
}

#[test]
fn spans_are_ordered_and_rematch_standalone() {
    let re = order_engine();
    let text = b"aa 1234xyzW bb 5678pqrV cc 9012klmU";
    let spans = drain(&re, text);
    assert_eq!(spans.len(), 3);
    for i in 0..spans.len() {
        let (s, e) = spans[i];
        assert!(s <= e && e <= text.len());
        assert!(re.is_match(&text[s..e]));
        if i + 1 < spans.len() {
            assert!(spans[i + 1].0 >= spans[i].1);
        }
    }
}

#[test]
fn rescan_yields_identical_spans() {
    let re = order_engine();
    let text = b"1111abcX and 2222defY";
    let first = drain(&re, text);
    let second = drain(&re, text);
    assert_eq!(first, second);
    assert_eq!(re.find_spans(text), first);
    assert_eq!(re.find_spans(text), second);
}

#[test]
fn zero_length_matches_still_terminate() {
    let re = MatchEngine::new("a*").unwrap();
    let spans = drain(&re, b"bb aa b");
    assert_eq!(
        spans,
        vec![(0, 0), (1, 1), (2, 2), (3, 5), (5, 5), (6, 6), (7, 7)]
    );
}

#[test]
fn many_engines_in_sequence() {
    for _ in 0..300 {
        let re = order_engine();
        assert!(re.is_match(b"Order 20231012ABXY9 shipped"));
    }
}

#[test]
fn response_payload_concatenates_inner_slices() {
    let re = order_engine();
    let text = b"1111abcX and 2222defY";
    let spans = re.find_spans(text);
    let payload = pcre_scan::payload::response_payload(text, &spans);
    assert_eq!(payload, b"abc def ".to_vec());

    let one = b"Order 20231012ABXY9 shipped";
    let one_spans = re.find_spans(one);
    let one_payload = pcre_scan::payload::response_payload(one, &one_spans);
    assert_eq!(one_payload, b"ABXY ".to_vec());
}
