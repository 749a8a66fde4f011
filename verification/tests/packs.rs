use snipstack::packs::{
    check_download, download_plan, find, is_downloaded, language_packs, list, source_urls,
    PackError, SourceFallback, SourceStep,
};

#[test]
fn catalogue_lists_five_packs_with_exact_sizes() {
    let packs = language_packs();
    let ids: Vec<&str> = packs.iter().map(|p| p.id).collect();
    assert_eq!(ids, vec!["korean", "latin", "eslav", "th", "arabic"]);
    assert_eq!(packs[0].total_bytes(), 13_446_374 + 47_451);
    assert_eq!(packs[4].rec_file, "arabic_pp-ocrv5_mobile_rec.onnx");
}

#[test]
fn find_knows_only_catalogued_packs() {
    let latin = find("latin").expect("latin");
    assert_eq!(latin.dict_file, "ppocrv5_latin_dict.txt");
    assert_eq!(latin.dict_bytes, 2_616);
    assert_eq!(find("zhEn").err(), Some(PackError::UnknownPack));
    assert_eq!(find("").err(), Some(PackError::UnknownPack));
}

#[test]
fn pack_counts_only_when_both_sizes_match() {
    let th = find("th").expect("th");
    assert!(is_downloaded(&th, Some(7_918_606), Some(1_767)));
    assert!(!is_downloaded(&th, Some(7_918_605), Some(1_767)));
    assert!(!is_downloaded(&th, Some(7_918_606), None));
}

#[test]
fn list_reports_status_in_catalogue_order() {
    let statuses = list(&vec![(None, None), (Some(8_069_614), Some(2_616))]);
    assert_eq!(statuses.len(), 5);
    assert_eq!(statuses[1].id, "latin");
    assert!(statuses[1].downloaded);
    assert!(!statuses[0].downloaded);
    assert!(!statuses[4].downloaded);
    assert_eq!(statuses[1].total_bytes, 8_069_614 + 2_616);
}

#[test]
fn plan_skips_files_already_complete() {
    let korean = find("korean").expect("korean");
    let all = download_plan(&korean, None, Some(1));
    assert_eq!(all.len(), 2);
    assert_eq!((all[0].file, all[0].base), ("korean_pp-ocrv5_mobile_rec.onnx", 0));
    assert_eq!((all[1].file, all[1].base), ("ppocrv5_korean_dict.txt", 13_446_374));
    let dict_only = download_plan(&korean, Some(13_446_374), None);
    assert_eq!(dict_only.len(), 1);
    assert_eq!(dict_only[0].expected, 47_451);
    assert!(download_plan(&korean, Some(13_446_374), Some(47_451)).is_empty());
}

#[test]
fn main_source_is_tried_before_the_mirror() {
    let urls = source_urls("ppocrv5_th_dict.txt");
    assert_eq!(
        urls,
        vec![
            "https://github.com/GreatV/oar-ocr/releases/download/v0.3.0/ppocrv5_th_dict.txt".to_owned(),
            "https://www.modelscope.cn/models/greatv/oar-ocr/resolve/master/ppocrv5_th_dict.txt".to_owned(),
        ]
    );
}

#[test]
fn incomplete_download_is_rejected() {
    let content = vec![7u8; 10];
    assert_eq!(check_download(&content, 10, None), Ok(()));
    assert_eq!(
        check_download(&content[..9], 10, None),
        Err(PackError::SizeMismatch { written: 9, expected: 10 })
    );
}

const ABC_SHA256: [u8; 32] = [
    0xba, 0x78, 0x16, 0xbf, 0x8f, 0x01, 0xcf, 0xea, 0x41, 0x41, 0x40, 0xde, 0x5d, 0xae, 0x22,
    0x23, 0xb0, 0x03, 0x61, 0xa3, 0x96, 0x17, 0x7a, 0x9c, 0xb4, 0x10, 0xff, 0x61, 0xf2, 0x00,
    0x15, 0xad,
];

#[test]
fn file_with_published_digest_is_accepted() {
    assert_eq!(check_download(b"abc", 3, Some(ABC_SHA256)), Ok(()));
}

#[test]
fn file_of_right_size_but_wrong_digest_is_rejected() {
    assert_eq!(
        check_download(b"abd", 3, Some(ABC_SHA256)),
        Err(PackError::HashMismatch)
    );
    let mut other = ABC_SHA256;
    other[31] ^= 1;
    assert_eq!(check_download(b"abc", 3, Some(other)), Err(PackError::HashMismatch));
}

#[test]
fn size_is_checked_before_the_digest() {
    assert_eq!(
        check_download(b"abcd", 3, Some(ABC_SHA256)),
        Err(PackError::SizeMismatch { written: 4, expected: 3 })
    );
}

#[test]
fn plan_carries_the_catalogue_digests() {
    let korean = find("korean").expect("korean");
    let steps = download_plan(&korean, None, None);
    assert_eq!(steps[0].sha256, korean.rec_sha256);
    assert_eq!(steps[1].sha256, korean.dict_sha256);
}

fn tried_url(step: SourceStep) -> String {
    match step {
        SourceStep::Try(url) => url,
        SourceStep::Done => panic!("unexpected Done"),
        SourceStep::GiveUp => panic!("unexpected GiveUp"),
    }
}

#[test]
fn mirror_is_tried_only_after_the_main_source_fails() {
    let mut sources = SourceFallback::new("ppocrv5_th_dict.txt");
    let first = tried_url(sources.next_step(false));
    assert!(first.starts_with("https://github.com/"));
    let second = tried_url(sources.next_step(false));
    assert!(second.starts_with("https://www.modelscope.cn/"));
    assert!(matches!(sources.next_step(false), SourceStep::GiveUp));
}

#[test]
fn first_success_ends_the_file() {
    let mut sources = SourceFallback::new("ppocrv5_th_dict.txt");
    let _ = tried_url(sources.next_step(false));
    assert!(matches!(sources.next_step(true), SourceStep::Done));
}
