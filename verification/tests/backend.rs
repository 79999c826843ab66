use compress_dispatch::backend::{normalize_algorithm, Backend};

#[test]
fn every_backend_has_its_name() {
    assert_eq!(Backend::from_name("zstd"), Some(Backend::Zstd));
    assert_eq!(Backend::from_name("xz"), Some(Backend::Xz));
    assert_eq!(Backend::from_name("zpaq"), Some(Backend::Zpaq));
    assert_eq!(Backend::from_name("paq8px"), Some(Backend::Paq8px));
}

#[test]
fn seven_zip_has_three_names() {
    assert_eq!(Backend::from_name("7z"), Some(Backend::SevenZip));
    assert_eq!(Backend::from_name("7zip"), Some(Backend::SevenZip));
    assert_eq!(Backend::from_name("sevenzip"), Some(Backend::SevenZip));
}

#[test]
fn normalized_names_are_exact() {
    assert_eq!(Backend::from_name("ZSTD"), None);
    assert_eq!(Backend::from_name("zstd "), None);
    assert_eq!(Backend::from_name(""), None);
    assert_eq!(Backend::from_name("gzip"), None);
    assert_eq!(Backend::from_name("paq8"), None);
    assert_eq!(Backend::from_name("seven-zip"), None);
}

#[test]
fn selection_ignores_case() {
    assert_eq!(Backend::select("7Z"), Some(Backend::SevenZip));
    assert_eq!(Backend::select("7zip"), Some(Backend::SevenZip));
    assert_eq!(Backend::select("SevenZip"), Some(Backend::SevenZip));
    assert_eq!(Backend::select("ZSTD"), Some(Backend::Zstd));
    assert_eq!(Backend::select("Xz"), Some(Backend::Xz));
    assert_eq!(Backend::select("ZPaq"), Some(Backend::Zpaq));
    assert_eq!(Backend::select("PAQ8PX"), Some(Backend::Paq8px));
    assert_eq!(Backend::select("brotli"), None);
}

#[test]
fn extensions_of_the_backends() {
    assert_eq!(Backend::Zstd.extension(), "zst");
    assert_eq!(Backend::Xz.extension(), "xz");
    assert_eq!(Backend::SevenZip.extension(), "7z");
    assert_eq!(Backend::Zpaq.extension(), "zpaq");
    assert_eq!(Backend::Paq8px.extension(), "paq8px");
}

#[test]
fn algorithm_is_lower_cased_and_defaults_to_zstd() {
    assert_eq!(normalize_algorithm(&None), "zstd");
    assert_eq!(normalize_algorithm(&Some("ZSTD".to_string())), "zstd");
    assert_eq!(normalize_algorithm(&Some("SevenZip".to_string())), "sevenzip");
    assert_eq!(normalize_algorithm(&Some("ÄB".to_string())), "äb");
    assert_eq!(normalize_algorithm(&Some("".to_string())), "");
}
