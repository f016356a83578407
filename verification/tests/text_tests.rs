use zeropi::text::{contains, decimal_string, ends_with_text, same_text, starts_with_text};

#[test]
fn decimal_of_small_and_large_numbers() {
    assert_eq!(decimal_string(0), "0");
    assert_eq!(decimal_string(7), "7");
    assert_eq!(decimal_string(8080), "8080");
    assert_eq!(decimal_string(6000), "6000");
    assert_eq!(decimal_string(u64::MAX), u64::MAX.to_string());
}

#[test]
fn substring_tests() {
    assert!(contains("llama-b1-bin-win-vulkan-x64.zip", "vulkan"));
    assert!(!contains("llama-b1-bin-win-cpu-x64.zip", "vulkan"));
    assert!(contains("abc", ""));
    assert!(!contains("", "a"));
    assert!(contains("aaab", "aab"));
}

#[test]
fn prefix_suffix_and_equality() {
    assert!(starts_with_text("\\\\?\\C:\\x", "\\\\?\\"));
    assert!(!starts_with_text("C:\\x", "\\\\?\\"));
    assert!(ends_with_text("a.zip", ".zip"));
    assert!(!ends_with_text("zip", ".zip"));
    assert!(same_text("vulkan", "vulkan"));
    assert!(!same_text("vulkan", "Vulkan"));
    assert!(!same_text("cpu", "cpu2"));
}
