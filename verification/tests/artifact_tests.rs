use lazyproarcconvert::artifact::{
    artifact_file_name, artifact_suffix, bool_label, index_label, ArtifactConfig, ArtifactKind,
};
use lazyproarcconvert::text::{
    chars_of, comes_before, concat2, concat3, decimal_of, join, signed_decimal_string,
    zero_padded_decimal,
};

#[test]
fn labels_are_zero_padded() {
    assert_eq!(index_label(1, 4), "0001");
    assert_eq!(index_label(42, 4), "0042");
    assert_eq!(index_label(9999, 4), "9999");
    assert_eq!(index_label(0, 4), "0000");
    assert_eq!(index_label(7, 1), "7");
}

#[test]
fn labels_wider_than_the_width_are_written_in_full() {
    assert_eq!(index_label(12345, 4), "12345");
    assert_eq!(index_label(10, 0), "10");
    assert_eq!(index_label(0, 0), "0");
    assert_eq!(index_label(u32::MAX, 4), "4294967295");
}

#[test]
fn labels_agree_with_std_formatting() {
    for (n, width) in [(0u32, 0usize), (5, 3), (123, 3), (123, 2), (1000, 6), (u32::MAX, 12)] {
        assert_eq!(zero_padded_decimal(n, width), format!("{:0width$}", n, width = width));
    }
}

#[test]
fn artifact_names_carry_the_fixed_suffixes() {
    assert_eq!(artifact_file_name(1, 4, ArtifactKind::MasterDerivative), "0001.ac.jp2");
    assert_eq!(artifact_file_name(1, 4, ArtifactKind::UserDerivative), "0001.uc.jp2");
    assert_eq!(artifact_file_name(1, 4, ArtifactKind::PlainText), "0001.ocr.txt");
    assert_eq!(artifact_file_name(1, 4, ArtifactKind::LayoutXml), "0001.ocr.xml");
    assert_eq!(artifact_file_name(3, 4, ArtifactKind::LayoutXml), "0003.ocr.xml");
    assert_eq!(artifact_suffix(ArtifactKind::MasterDerivative), ".ac.jp2");
}

#[test]
fn config_counts_enabled_kinds() {
    let all = ArtifactConfig::all();
    assert_eq!(all.required_count(), 4);
    let none = ArtifactConfig { master: false, user: false, text: false, layout: false };
    assert_eq!(none.required_count(), 0);
    let two = ArtifactConfig { master: true, user: false, text: true, layout: false };
    assert_eq!(two.required_count(), 2);
    assert!(two.is_enabled(ArtifactKind::PlainText));
    assert!(!two.is_enabled(ArtifactKind::LayoutXml));
}

#[test]
fn toggling_switches_one_kind_only() {
    let all = ArtifactConfig::all();
    let without_text = all.toggled(ArtifactKind::PlainText);
    assert_eq!(
        without_text,
        ArtifactConfig { master: true, user: true, text: false, layout: true }
    );
    assert_eq!(without_text.toggled(ArtifactKind::PlainText), all);
    assert!(!all.toggled(ArtifactKind::MasterDerivative).master);
    assert!(!all.toggled(ArtifactKind::UserDerivative).user);
    assert!(!all.toggled(ArtifactKind::LayoutXml).layout);
}

#[test]
fn switches_are_labelled_on_and_off() {
    assert_eq!(bool_label(true), "ON");
    assert_eq!(bool_label(false), "OFF");
}

#[test]
fn numbers_are_written_in_decimal() {
    assert_eq!(decimal_of(0), "0");
    assert_eq!(decimal_of(10), "10");
    assert_eq!(decimal_of(u64::MAX), "18446744073709551615");
    assert_eq!(signed_decimal_string(0), "0");
    assert_eq!(signed_decimal_string(-1), "-1");
    assert_eq!(signed_decimal_string(127), "127");
    assert_eq!(signed_decimal_string(i32::MIN), "-2147483648");
    assert_eq!(signed_decimal_string(i32::MAX), "2147483647");
}

#[test]
fn texts_are_taken_apart_and_put_together() {
    assert_eq!(chars_of("aé✓"), vec!['a', 'é', '✓']);
    assert_eq!(chars_of(""), Vec::<char>::new());
    assert_eq!(concat2("ab", "cd"), "abcd");
    assert_eq!(concat3("a", "", "c"), "ac");
    assert_eq!(join(&vec!["a".to_string(), "b".to_string(), "c".to_string()], ", "), "a, b, c");
    assert_eq!(join(&vec!["only".to_string()], " "), "only");
    assert_eq!(join(&Vec::new(), " "), "");
}

#[test]
fn names_are_ordered_by_their_characters() {
    assert!(comes_before("a", "b"));
    assert!(!comes_before("b", "a"));
    assert!(!comes_before("a", "a"));
    assert!(comes_before("", "a"));
    assert!(!comes_before("a", ""));
    assert!(comes_before("batch", "batchA"));
    assert!(comes_before("B", "a"));
    assert!(comes_before("a10", "a2"));
    assert!(comes_before("z", "é"));
    for (a, b) in [("x", "y"), ("abc", "abd"), ("Z", "a"), ("é", "z"), ("", ""), ("ab", "a")] {
        assert_eq!(comes_before(a, b), a < b);
    }
}
