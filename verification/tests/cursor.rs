use pcre2_matcher::options::PCRE2_NO_UTF_CHECK;
use pcre2_matcher::{CompileContext, Error, Match, Pattern, Step, PCRE2};

/// An engine for `pattern` at addresses that stand for the native blocks, with
/// one offset pair in its match data block.
fn scanner(pattern: &str) -> PCRE2 {
    let call = PCRE2::new(pattern, CompileContext::new(0x1000)).unwrap();
    let compiled = Pattern::compiled(call, 0x2000, 100, 0).unwrap();
    PCRE2::from_pattern(compiled, 0x3000, 1)
}

/// What a native matcher answers: its result code and the offsets it wrote.
type Answer = (i32, Vec<usize>);

/// Stands for the native matcher on a literal pattern: the first occurrence of
/// `needle` at or after `start`.
fn literal(needle: &[u8], subject: &[u8], start: usize) -> Answer {
    if start > subject.len() {
        return (-33, vec![0, 0]);
    }
    let mut at = start;
    while at + needle.len() <= subject.len() {
        if &subject[at..at + needle.len()] == needle {
            return (1, vec![at, at + needle.len()]);
        }
        at += 1;
    }
    (-1, vec![0, 0])
}

/// Stands for the native matcher on `a*`: the longest run of `a` at `start`.
fn run_of_a(subject: &[u8], start: usize) -> Answer {
    if start > subject.len() {
        return (-33, vec![0, 0]);
    }
    let mut end = start;
    while end < subject.len() && subject[end] == b'a' {
        end += 1;
    }
    (1, vec![start, end])
}

fn is_space(byte: u8) -> bool {
    byte == b' ' || (9..=13).contains(&byte)
}

fn is_plain(byte: u8) -> bool {
    !byte.is_ascii_digit() && !is_space(byte)
}

/// Stands for the native matcher on `(?<=\d{4})[^\d\s]{3,11}(?=\S)`: four
/// digits before, then the longest run of 3 to 11 bytes that are neither digit
/// nor white space and that a byte other than white space follows.
fn after_four_digits(subject: &[u8], start: usize) -> Answer {
    if start > subject.len() {
        return (-33, vec![0, 0]);
    }
    for at in start..subject.len() {
        if at < 4 || !subject[at - 4..at].iter().all(|b| b.is_ascii_digit()) {
            continue;
        }
        let mut run = 0;
        while run < 11 && at + run < subject.len() && is_plain(subject[at + run]) {
            run += 1;
        }
        while run >= 3 {
            if at + run < subject.len() && !is_space(subject[at + run]) {
                return (1, vec![at, at + run]);
            }
            run -= 1;
        }
    }
    (-1, vec![0, 0])
}

/// What a scan came to: the matches and errors it reported, the offsets at which
/// it asked for an attempt, and the number of matches it suppressed.
struct Run<'s> {
    reported: Vec<Result<Match<'s>, Error>>,
    asked: Vec<usize>,
    suppressed: usize,
}

/// Runs the scan of `subject` to its end, with `matcher` in place of the
/// native matcher.
fn scan<'s>(re: &mut PCRE2, subject: &'s [u8], matcher: &dyn Fn(&[u8], usize) -> Answer) -> Run<'s> {
    let mut cursor = re.find_iter(subject);
    let mut run = Run { reported: Vec::new(), asked: Vec::new(), suppressed: 0 };
    while let Some(call) = cursor.call() {
        assert_eq!(call.code, 0x2000);
        assert_eq!(call.match_data, 0x3000);
        assert_eq!(call.subject, subject);
        assert_eq!(call.options, PCRE2_NO_UTF_CHECK);
        run.asked.push(call.start);
        let (rc, offsets) = matcher(call.subject, call.start);
        let found = re.matched(call, rc, &offsets);
        match cursor.next(found) {
            Step::Yield(m) => run.reported.push(Ok(m)),
            Step::Suppressed => run.suppressed += 1,
            Step::Failed(e) => run.reported.push(Err(e)),
            Step::Done => {},
        }
        assert!(run.asked.len() <= subject.len() + 2, "the scan does not end");
    }
    run
}

/// The offsets of the matches that were reported; no error among them.
fn spans(run: &Run) -> Vec<(usize, usize)> {
    run.reported.iter().map(|r| r.map(|m| (m.start(), m.end())).unwrap()).collect()
}

/// Each match begins at or after the end of the one before it, and beyond
/// that end if either of the two is empty.
fn assert_no_overlap(spans: &[(usize, usize)]) {
    for pair in spans.windows(2) {
        let (before, after) = (pair[0], pair[1]);
        assert!(before.0 <= before.1);
        assert!(before.1 <= after.0, "{:?} overlaps {:?}", before, after);
        if before.0 == before.1 || after.0 == after.1 {
            assert!(before.1 < after.0, "{:?} touches {:?}", before, after);
        }
    }
}

const TARGET: &str = "a;jhgoqoghqoj0329 u0tyu10hg0h9Y0Y9827342482y(Y0y(G)_)lajf;lqjfgqhgpqjopjqa=)*(^!@#$%^&*())9999999";

#[test]
fn run_after_four_digits_is_found_with_its_offsets() {
    let mut re = scanner(r"(?<=\d{4})[^\d\s]{3,11}(?=\S)");
    let subject = TARGET.as_bytes();
    let run = scan(&mut re, subject, &after_four_digits);
    assert_eq!(run.reported.len(), 1);
    let first = run.reported[0].unwrap();
    assert_eq!(first.to_string(), "y(Y");
    assert_eq!(first.as_bytes(), b"y(Y");
    assert_eq!((first.start(), first.end()), (43, 46));
    assert_eq!(&subject[first.start()..first.end()], first.as_bytes());
    assert_eq!(&TARGET[39..43], "2482");
    // What follows "0329" is white space: no match begins there.
    assert_eq!(&TARGET[13..18], "0329 ");
    assert!(first.start() != 17);
    assert_eq!(run.asked, vec![0, 46]);
    assert_eq!(run.suppressed, 0);
}

#[test]
fn no_match_starts_inside_white_space_or_digits() {
    let mut re = scanner(r"(?<=\d{4})[^\d\s]{3,11}(?=\S)");
    for text in [TARGET, "1234abc5678 xyz 0000;;;;;;;;;;;;;;;;1", "12345678", "1234ab 1234abc", ""] {
        let subject = text.as_bytes();
        let run = scan(&mut re, subject, &after_four_digits);
        for m in run.reported.iter().map(|r| r.unwrap()) {
            assert!(m.end() - m.start() >= 3 && m.end() - m.start() <= 11);
            assert!(m.as_bytes().iter().all(|&b| is_plain(b)));
            assert!(subject[m.start() - 4..m.start()].iter().all(|b| b.is_ascii_digit()));
            assert!(!is_space(subject[m.end()]));
        }
        assert_no_overlap(&spans(&run));
    }
    let run = scan(&mut re, b"1234abc5678 xyz 0000;;;;;;;;;;;;;;;;1", &after_four_digits);
    assert_eq!(spans(&run), vec![(4, 7), (20, 31)]);
}

#[test]
fn successive_matches_of_a_literal() {
    let mut re = scanner("an");
    let run = scan(&mut re, b"banana", &|s, at| literal(b"an", s, at));
    assert_eq!(spans(&run), vec![(1, 3), (3, 5)]);
    assert_eq!(run.reported[0], Ok(Match::new(b"an", 1, 3)));
    assert_eq!(run.reported[1], Ok(Match::new(b"an", 3, 5)));
    // The third attempt finds nothing, and the scan is over.
    assert_eq!(run.asked, vec![0, 3, 5]);
    assert_no_overlap(&spans(&run));
}

#[test]
fn matches_of_overlapping_occurrences_do_not_overlap() {
    let mut re = scanner("aa");
    let run = scan(&mut re, b"aaaaa", &|s, at| literal(b"aa", s, at));
    assert_eq!(spans(&run), vec![(0, 2), (2, 4)]);
    assert_no_overlap(&spans(&run));
}

#[test]
fn empty_matches_everywhere_end_after_one_step_per_offset() {
    let mut re = scanner("");
    for subject in [&b""[..], b"a", b"abc", b"0123456789"] {
        let run = scan(&mut re, subject, &|s, at| literal(b"", s, at));
        let expected: Vec<(usize, usize)> = (0..=subject.len()).map(|i| (i, i)).collect();
        assert_eq!(spans(&run), expected);
        assert_eq!(run.asked.len(), subject.len() + 1);
        assert_eq!(run.reported.len() + run.suppressed, subject.len() + 1);
        assert_no_overlap(&spans(&run));
    }
}

#[test]
fn empty_match_at_the_end_of_a_match_is_suppressed() {
    let mut re = scanner("a*");
    let run = scan(&mut re, b"aab", &run_of_a);
    // "aa", then the empty match at 2 that touches it, then the one at 3.
    assert_eq!(spans(&run), vec![(0, 2), (3, 3)]);
    assert_eq!(run.asked, vec![0, 2, 3]);
    assert_eq!(run.suppressed, 1);
    assert!(run.reported.len() + run.suppressed <= 3 + 1);
    assert_no_overlap(&spans(&run));

    let run = scan(&mut re, b"baaab", &run_of_a);
    assert_eq!(spans(&run), vec![(0, 0), (1, 4), (5, 5)]);
    assert_eq!(run.suppressed, 1);
    assert_no_overlap(&spans(&run));

    let run = scan(&mut re, b"aaa", &run_of_a);
    assert_eq!(spans(&run), vec![(0, 3)]);
    assert_eq!(run.asked, vec![0, 3]);
    assert_eq!(run.suppressed, 1);
}

#[test]
fn scan_takes_at_most_one_step_per_offset() {
    let mut re = scanner("a*");
    for subject in [&b""[..], b"a", b"b", b"ab", b"ba", b"aabaa", b"bbbb", b"aaaa", b"abababab"] {
        let run = scan(&mut re, subject, &run_of_a);
        assert!(run.reported.len() + run.suppressed <= subject.len() + 1);
        assert!(run.asked.windows(2).all(|w| w[0] < w[1]), "the scan went back: {:?}", run.asked);
        assert_no_overlap(&spans(&run));
    }
}

#[test]
fn first_no_match_ends_the_scan() {
    let mut re = scanner("x");
    let run = scan(&mut re, b"banana", &|s, at| literal(b"x", s, at));
    assert!(run.reported.is_empty());
    assert_eq!(run.asked, vec![0]);
}

#[test]
fn error_is_reported_once_and_ends_the_scan() {
    let mut re = scanner("an");
    let subject = b"banana";
    let mut cursor = re.find_iter(subject);

    let call = cursor.call().unwrap();
    assert_eq!(call.start, 0);
    let found = re.matched(call, 1, &[1, 3]);
    assert_eq!(cursor.next(found), Step::Yield(Match::new(b"an", 1, 3)));

    let call = cursor.call().unwrap();
    assert_eq!(call.start, 3);
    let found = re.matched(call, -47, &[0, 0]);
    assert_eq!(cursor.next(found), Step::Failed(Error::MatchError { code: -47 }));

    // No attempt is asked for again, and nothing that is found is taken.
    assert!(cursor.call().is_none());
    assert_eq!(cursor.next(Ok(Match::new(b"an", 3, 5))), Step::Done);
    assert_eq!(cursor.next(Err(Error::MatchError { code: -47 })), Step::Done);
    assert_eq!(cursor.next(Err(Error::NoMatch)), Step::Done);
    assert!(cursor.call().is_none());
}

#[test]
fn any_error_but_no_match_is_passed_on() {
    let re = scanner("a");
    let mut cursor = re.find_iter(b"a");
    let refused = Error::InvalidOption { options: 0x10 };
    assert_eq!(cursor.next(Err(refused)), Step::Failed(refused));
    assert!(cursor.call().is_none());

    let mut cursor = re.find_iter(b"a");
    let failed = Error::CompileError { code: 109, byte_offset: 0 };
    assert_eq!(cursor.next(Err(failed)), Step::Failed(failed));
    assert!(cursor.call().is_none());

    let mut cursor = re.find_iter(b"a");
    assert_eq!(cursor.next(Err(Error::NoMatch)), Step::Done);
    assert!(cursor.call().is_none());
}

#[test]
fn cursor_starts_at_the_start_of_the_subject() {
    let re = scanner("a");
    let subject = b"banana";
    let cursor = re.find_iter(subject);
    let call = cursor.call().unwrap();
    assert_eq!(call.code, 0x2000);
    assert_eq!(call.match_data, 0x3000);
    assert_eq!(call.subject, subject);
    assert_eq!(call.start, 0);
    assert_eq!(call.options, 0x4000_0000);
    // On an empty subject too there is one attempt to make.
    assert_eq!(re.find_iter(b"").call().unwrap().start, 0);
}

#[test]
fn scan_moves_past_a_match_and_one_further_past_an_empty_one() {
    let re = scanner("a*");
    let mut cursor = re.find_iter(b"baab");
    // The first match is empty, and no match was reported before it.
    assert_eq!(cursor.next(Ok(Match::new(b"", 0, 0))), Step::Yield(Match::new(b"", 0, 0)));
    assert_eq!(cursor.call().unwrap().start, 1);
    assert_eq!(cursor.next(Ok(Match::new(b"aa", 1, 3))), Step::Yield(Match::new(b"aa", 1, 3)));
    assert_eq!(cursor.call().unwrap().start, 3);
    // Empty, at the end of "aa": not reported, and the scan moves on.
    assert_eq!(cursor.next(Ok(Match::new(b"", 3, 3))), Step::Suppressed);
    assert_eq!(cursor.call().unwrap().start, 4);
    // Empty, at the end of the subject: reported, and the scan is over.
    assert_eq!(cursor.next(Ok(Match::new(b"", 4, 4))), Step::Yield(Match::new(b"", 4, 4)));
    assert!(cursor.call().is_none());
    assert_eq!(cursor.next(Ok(Match::new(b"", 4, 4))), Step::Done);
}

#[test]
fn match_up_to_the_end_leaves_one_attempt_at_the_end() {
    let re = scanner("b+");
    let mut cursor = re.find_iter(b"abb");
    assert_eq!(cursor.next(Ok(Match::new(b"bb", 1, 3))), Step::Yield(Match::new(b"bb", 1, 3)));
    assert_eq!(cursor.call().unwrap().start, 3);
    assert_eq!(cursor.next(Err(Error::NoMatch)), Step::Done);
    assert!(cursor.call().is_none());
}

#[test]
fn match_at_the_largest_offset_ends_the_scan() {
    let re = scanner("");
    let mut cursor = re.find_iter(b"ab");
    let far = Match::new(b"", usize::MAX, usize::MAX);
    assert_eq!(cursor.next(Ok(far)), Step::Yield(far));
    assert!(cursor.call().is_none());

    let mut cursor = re.find_iter(b"ab");
    let wide = Match::new(b"", 0, usize::MAX);
    assert_eq!(cursor.next(Ok(wide)), Step::Yield(wide));
    assert!(cursor.call().is_none());
}
