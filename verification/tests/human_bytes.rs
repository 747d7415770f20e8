use treesize::convert_to_human_bytes;
use treesize::EXBIBYTE;
use treesize::GIBIBYTE;
use treesize::KIBIBYTE;
use treesize::MEBIBYTE;
use treesize::PEBIBYTE;
use treesize::TEBIBYTE;

#[test]
fn test_convert_to_human_bytes() {
    for (size_in_bytes, human_bytes) in [
        (0, "0 Bytes"),
        (KIBIBYTE - 1, "1023 Bytes"),
        (KIBIBYTE, "1 KiB"),
        (MEBIBYTE - 1, "1023 KiB"),
        (MEBIBYTE, "1 MiB"),
        (GIBIBYTE - 1, "1023 MiB"),
        (GIBIBYTE, "1 GiB"),
        (TEBIBYTE - 1, "1023 GiB"),
        (TEBIBYTE, "1 TiB"),
        (PEBIBYTE - 1, "1023 TiB"),
        (PEBIBYTE, "1 PiB"),
        (EXBIBYTE - 1, "1023 PiB"),
        (EXBIBYTE, "1 EiB"),
    ] {
        println!("{size_in_bytes} bytes -> {human_bytes}");
        assert_eq!(convert_to_human_bytes(size_in_bytes, false), human_bytes);
    }
}

#[test]
fn test_convert_to_abbr_human_bytes() {
    for (size_in_bytes, abbr_human_bytes) in [
        (0, "0 B"),
        (KIBIBYTE - 1, "1023 B"),
        (KIBIBYTE, "1 K"),
        (MEBIBYTE - 1, "1023 K"),
        (MEBIBYTE, "1 M"),
        (GIBIBYTE - 1, "1023 M"),
        (GIBIBYTE, "1 G"),
        (TEBIBYTE - 1, "1023 G"),
        (TEBIBYTE, "1 T"),
        (PEBIBYTE - 1, "1023 T"),
        (PEBIBYTE, "1 P"),
        (EXBIBYTE - 1, "1023 P"),
        (EXBIBYTE, "1 E"),
    ] {
        println!("{size_in_bytes} bytes -> {abbr_human_bytes}");
        assert_eq!(
            convert_to_human_bytes(size_in_bytes, true),
            abbr_human_bytes
        );
    }
}

#[test]
fn plain_byte_counts_are_verbatim() {
    for size in [0u64, 1, 2, 9, 10, 99, 100, 512, 1000, 1023] {
        assert_eq!(convert_to_human_bytes(size, false), format!("{size} Bytes"));
        assert_eq!(convert_to_human_bytes(size, true), format!("{size} B"));
    }
}

#[test]
fn truncation_never_rounds_up() {
    assert_eq!(convert_to_human_bytes(KIBIBYTE + 1, false), "1 KiB");
    assert_eq!(convert_to_human_bytes(2 * KIBIBYTE - 1, false), "1 KiB");
    assert_eq!(convert_to_human_bytes(2 * KIBIBYTE, false), "2 KiB");
    assert_eq!(convert_to_human_bytes(MEBIBYTE + MEBIBYTE / 2, false), "1 MiB");
    assert_eq!(convert_to_human_bytes(1048575, false), "1023 KiB");
    assert_eq!(convert_to_human_bytes(1048576, false), "1 MiB");
}

#[test]
fn sizes_above_one_exbibyte_keep_the_exbibyte_unit() {
    assert_eq!(convert_to_human_bytes(2 * EXBIBYTE, false), "2 EiB");
    assert_eq!(convert_to_human_bytes(u64::MAX, false), "15 EiB");
    assert_eq!(convert_to_human_bytes(u64::MAX, true), "15 E");
}
