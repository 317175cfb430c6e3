use branchflow::branches::parse_branch_listing;
use branchflow::branches::strip_marks_bytes;
use branchflow::branches::trim_bytes;

fn parse(listing: &[u8]) -> (Vec<u8>, Vec<Vec<u8>>) {
    let info = parse_branch_listing(&listing.to_vec());
    (info.current, info.others)
}

#[test]
fn current_is_marked_line() {
    let (current, others) = parse(b"* main\n  feature-x\n");
    assert_eq!(current, b"main".to_vec());
    assert_eq!(others, vec![b"feature-x".to_vec()]);
}

#[test]
fn empty_listing_falls_back_to_main() {
    let (current, others) = parse(b"");
    assert_eq!(current, b"main".to_vec());
    assert!(others.is_empty());
}

#[test]
fn no_marker_falls_back_to_main() {
    let (current, others) = parse(b"  one\n  two\n");
    assert_eq!(current, b"main".to_vec());
    assert_eq!(others, vec![b"one".to_vec(), b"two".to_vec()]);
}

#[test]
fn others_keep_listing_order() {
    let (current, others) = parse(b"  alpha\n* dev\n  beta\n  gamma\n");
    assert_eq!(current, b"dev".to_vec());
    assert_eq!(
        others,
        vec![b"alpha".to_vec(), b"beta".to_vec(), b"gamma".to_vec()]
    );
}

#[test]
fn repeated_markers_are_stripped() {
    let (current, _) = parse(b"** spaced name\n");
    assert_eq!(current, b"spaced name".to_vec());
}

#[test]
fn first_marked_line_wins() {
    let (current, others) = parse(b"* one\n* two\n");
    assert_eq!(current, b"one".to_vec());
    assert!(others.is_empty());
}

#[test]
fn lines_are_trimmed() {
    let (current, others) = parse(b"\t * main \r\n   feature  \n");
    assert_eq!(current, b"main".to_vec());
    assert_eq!(others, vec![b"feature".to_vec()]);
}

#[test]
fn trailing_newline_adds_no_line() {
    let (_, others) = parse(b"* main\n  a");
    let (_, others2) = parse(b"* main\n  a\n");
    assert_eq!(others, others2);
}

#[test]
fn blank_line_becomes_empty_entry() {
    let (_, others) = parse(b"* main\n\n  a\n");
    assert_eq!(others, vec![b"".to_vec(), b"a".to_vec()]);
}

#[test]
fn trim_bytes_trims_both_ends() {
    assert_eq!(trim_bytes(&b"  word \t\r".to_vec()), b"word".to_vec());
    assert_eq!(trim_bytes(&b"".to_vec()), b"".to_vec());
    assert_eq!(trim_bytes(&b" \t ".to_vec()), b"".to_vec());
    assert_eq!(trim_bytes(&b"a b".to_vec()), b"a b".to_vec());
}

#[test]
fn strip_marks_removes_leading_stars_only() {
    assert_eq!(strip_marks_bytes(&b"**x*".to_vec()), b"x*".to_vec());
    assert_eq!(strip_marks_bytes(&b"x".to_vec()), b"x".to_vec());
    assert_eq!(strip_marks_bytes(&b"".to_vec()), b"".to_vec());
}
