use toolbox::batch::{convert_webp_to_png, ConversionResult, FileCandidate};
use toolbox::errors::{check_path_is_directory, io_failure, ConvertError, PathKind};
use toolbox::listing::{entry_matches, select, Listed};

fn file(name: &str) -> Listed {
    Listed::Found { name: name.to_string(), is_file: true }
}

fn folder(name: &str) -> Listed {
    Listed::Found { name: name.to_string(), is_file: false }
}

fn mixed_listing() -> Vec<Listed> {
    vec![
        file("notes.txt"),
        file("a.webp"),
        folder("dir.webp"),
        Listed::Unreadable("denied".to_string()),
        file("B.WEBP"),
        file("noext"),
        file("c.WebP"),
        file(".webp"),
    ]
}

#[test]
fn select_picks_regular_files_with_the_extension() {
    assert_eq!(select(&mixed_listing(), "webp"), vec![1, 4, 6]);
    assert_eq!(select(&Vec::new(), "webp"), Vec::<usize>::new());
    assert_eq!(select(&vec![file("a.png")], "webp"), Vec::<usize>::new());
    assert!(entry_matches(&file("a.webp"), "webp"));
    assert!(!entry_matches(&folder("a.webp"), "webp"));
    assert!(!entry_matches(&Listed::Unreadable("a.webp".to_string()), "webp"));
}

#[test]
fn batch_counts_every_candidate_once() {
    let mut batch = convert_webp_to_png(PathKind::Directory, Ok(mixed_listing())).unwrap();
    assert_eq!(batch.pending(), Some(1));
    assert!(batch.record(Ok(())));
    assert_eq!(batch.pending(), Some(4));
    assert!(batch.record(Err(ConvertError::Decode("bad header".to_string()))));
    assert_eq!(batch.pending(), Some(6));
    assert!(batch.record(Err(io_failure("Ошибка открытия файла: ", "denied"))));
    assert_eq!(batch.pending(), None);
    assert!(!batch.record(Ok(())));
    let report = batch.finish();
    assert_eq!(
        report,
        ConversionResult {
            converted: 1,
            failed: 2,
            errors: vec![
                "B.WEBP: Ошибка декодирования: bad header".to_string(),
                "c.WebP: Ошибка открытия файла: denied".to_string(),
            ],
        }
    );
    assert_eq!(report.converted + report.failed, 3);
}

#[test]
fn other_entries_do_not_change_the_report() {
    let only = vec![file("a.webp"), file("B.WEBP"), file("c.WebP")];
    let mut plain = convert_webp_to_png(PathKind::Directory, Ok(only)).unwrap();
    let mut mixed = convert_webp_to_png(PathKind::Directory, Ok(mixed_listing())).unwrap();
    while plain.pending().is_some() {
        assert!(mixed.pending().is_some());
        plain.record(Err(ConvertError::Encode("disk full".to_string())));
        mixed.record(Err(ConvertError::Encode("disk full".to_string())));
    }
    assert_eq!(mixed.pending(), None);
    let report = plain.finish();
    assert_eq!(report.failed, 3);
    assert_eq!(report.converted, 0);
    assert_eq!(report.errors[0], "a.webp: Ошибка сохранения PNG: disk full");
    assert_eq!(report, mixed.finish());
}

#[test]
fn empty_folder_gives_an_empty_report() {
    let batch = convert_webp_to_png(PathKind::Directory, Ok(Vec::new())).unwrap();
    assert_eq!(batch.pending(), None);
    assert_eq!(batch.finish(), ConversionResult { converted: 0, failed: 0, errors: Vec::new() });
}

#[test]
fn batch_refuses_what_is_no_directory() {
    for kind in [PathKind::Missing, PathKind::File, PathKind::Other] {
        match convert_webp_to_png(kind, Ok(mixed_listing())) {
            Err(e) => assert_eq!(e, ConvertError::InvalidPath),
            Ok(_) => panic!("accepted"),
        }
    }
    match convert_webp_to_png(PathKind::Directory, Err("denied".to_string())) {
        Err(e) => {
            assert_eq!(e, ConvertError::Io("Ошибка чтения папки: denied".to_string()));
            assert_eq!(e.message(), "Ошибка чтения папки: denied");
        }
        Ok(_) => panic!("accepted"),
    }
}

#[test]
fn report_records_lines() {
    let mut report = ConversionResult::new();
    report.record("a.webp", Ok(()));
    report.record("b.webp", Err(ConvertError::WrongExtension));
    assert_eq!(report.converted, 1);
    assert_eq!(report.failed, 1);
    assert_eq!(report.errors, vec!["b.webp: Файл не является WebP изображением".to_string()]);
}

#[test]
fn messages_of_failures() {
    assert_eq!(ConvertError::InvalidPath.message(), "Путь не существует");
    assert_eq!(ConvertError::NotAFile.message(), "Указанный путь не является файлом");
    assert_eq!(ConvertError::WrongExtension.message(), "Файл не является WebP изображением");
    assert_eq!(ConvertError::Io("x".to_string()).message(), "x");
    assert_eq!(ConvertError::Decode("x".to_string()).message(), "Ошибка декодирования: x");
    assert_eq!(ConvertError::Encode("x".to_string()).message(), "Ошибка сохранения PNG: x");
}

#[test]
fn only_a_directory_is_a_directory() {
    assert!(check_path_is_directory(PathKind::Directory));
    assert!(!check_path_is_directory(PathKind::Missing));
    assert!(!check_path_is_directory(PathKind::File));
    assert!(!check_path_is_directory(PathKind::Other));
}

#[test]
fn candidate_names_its_target() {
    let mut batch = convert_webp_to_png(PathKind::Directory, Ok(mixed_listing())).unwrap();
    assert_eq!(
        batch.candidate(),
        Some(FileCandidate { index: 1, name: "a.webp".to_string(), target: "a.png".to_string() })
    );
    batch.record(Ok(()));
    assert_eq!(
        batch.candidate(),
        Some(FileCandidate { index: 4, name: "B.WEBP".to_string(), target: "B.png".to_string() })
    );
    batch.record(Ok(()));
    batch.record(Ok(()));
    assert_eq!(batch.candidate(), None);
}
