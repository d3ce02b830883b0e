use narma::artifact::{artifact_name, cache_dir, cache_path, split_artifact_name, CACHE_DIR};
use narma::decimal::parse_u64;

#[test]
fn artifact_name_is_stamp_and_extension() {
    assert_eq!(artifact_name(0), "0.acir");
    assert_eq!(artifact_name(1700000000), "1700000000.acir");
    assert_eq!(artifact_name(u64::MAX), "18446744073709551615.acir");
}

#[test]
fn split_takes_the_extension_off() {
    assert_eq!(split_artifact_name("1700000000.acir"), Some("1700000000"));
    assert_eq!(split_artifact_name("abc.acir"), Some("abc"));
    assert_eq!(split_artifact_name(".acir"), Some(""));
    assert_eq!(split_artifact_name("a.acir.acir"), Some("a.acir"));
    assert_eq!(split_artifact_name("é.acir"), Some("é"));
}

#[test]
fn split_passes_over_other_names() {
    assert_eq!(split_artifact_name(""), None);
    assert_eq!(split_artifact_name("acir"), None);
    assert_eq!(split_artifact_name("12.txt"), None);
    assert_eq!(split_artifact_name("12.ACIR"), None);
    assert_eq!(split_artifact_name("12.acir "), None);
    assert_eq!(split_artifact_name("12.acir.bak"), None);
    assert_eq!(split_artifact_name("12acir"), None);
    assert_eq!(split_artifact_name("日本語"), None);
}

#[test]
fn stored_artifact_is_found_under_its_stamp() {
    for stamp in [0u64, 5, 1700000000, u64::MAX] {
        let name = artifact_name(stamp);
        let stem = split_artifact_name(&name).unwrap();
        assert_eq!(parse_u64(stem), Some(stamp));
    }
}

#[test]
fn cache_directory_is_beside_the_user() {
    assert_eq!(CACHE_DIR, "./.narma-cache");
    assert_eq!(cache_dir(), "./.narma-cache");
}

#[test]
fn cache_path_is_inside_the_directory() {
    assert_eq!(cache_path("5.acir"), "./.narma-cache/5.acir");
    assert_eq!(cache_path(""), "./.narma-cache/");
    assert_eq!(
        std::path::Path::new(&cache_path("1700000000.acir")),
        std::path::Path::new(CACHE_DIR).join("1700000000.acir")
    );
}
