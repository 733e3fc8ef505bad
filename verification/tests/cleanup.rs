use toolbox::cleanup::{delete_webp_files, DeleteStep};
use toolbox::errors::{ConvertError, PathKind};
use toolbox::listing::Listed;

fn file(name: &str) -> Listed {
    Listed::Found { name: name.to_string(), is_file: true }
}

fn folder(name: &str) -> Listed {
    Listed::Found { name: name.to_string(), is_file: false }
}

#[test]
fn cleanup_removes_each_candidate() {
    let listing = vec![file("a.webp"), file("b.png"), folder("c.webp"), file("d.WEBP")];
    let mut job = delete_webp_files(PathKind::Directory, Ok(listing), "webp").unwrap();
    assert_eq!(job.advance(), DeleteStep::Remove(0));
    assert_eq!(job.removed(Ok(())), None);
    assert_eq!(job.advance(), DeleteStep::Remove(3));
    assert_eq!(job.removed(Ok(())), None);
    assert_eq!(job.advance(), DeleteStep::Finished(Ok(2)));
    assert_eq!(job.advance(), DeleteStep::Finished(Ok(2)));
}

#[test]
fn second_cleanup_removes_nothing() {
    let left = vec![file("b.png"), folder("c.webp")];
    let mut job = delete_webp_files(PathKind::Directory, Ok(left), "webp").unwrap();
    assert_eq!(job.advance(), DeleteStep::Finished(Ok(0)));
    let mut empty = delete_webp_files(PathKind::Directory, Ok(Vec::new()), "webp").unwrap();
    assert_eq!(empty.advance(), DeleteStep::Finished(Ok(0)));
}

#[test]
fn first_failed_removal_ends_the_cleanup() {
    let listing = vec![file("a.webp"), file("b.webp"), file("c.webp")];
    let mut job = delete_webp_files(PathKind::Directory, Ok(listing), "webp").unwrap();
    assert_eq!(job.advance(), DeleteStep::Remove(0));
    assert_eq!(job.removed(Ok(())), None);
    assert_eq!(job.advance(), DeleteStep::Remove(1));
    let stop = job.removed(Err("denied".to_string()));
    assert_eq!(stop, Some(ConvertError::Io("Ошибка удаления файла b.webp: denied".to_string())));
    assert_eq!(job.advance(), DeleteStep::Remove(1));
}

#[test]
fn unreadable_entry_ends_the_cleanup() {
    let listing = vec![file("a.webp"), Listed::Unreadable("gone".to_string()), file("c.webp")];
    let mut job = delete_webp_files(PathKind::Directory, Ok(listing), "webp").unwrap();
    assert_eq!(job.advance(), DeleteStep::Remove(0));
    assert_eq!(job.removed(Ok(())), None);
    assert_eq!(
        job.advance(),
        DeleteStep::Finished(Err(ConvertError::Io("Ошибка чтения записи: gone".to_string())))
    );
}

#[test]
fn removal_that_was_not_asked_for_changes_nothing() {
    let listing = vec![file("a.png"), file("b.webp")];
    let mut job = delete_webp_files(PathKind::Directory, Ok(listing), "webp").unwrap();
    assert_eq!(job.removed(Ok(())), None);
    assert_eq!(job.removed(Err("x".to_string())), None);
    assert_eq!(job.advance(), DeleteStep::Remove(1));
    assert_eq!(job.removed(Ok(())), None);
    assert_eq!(job.removed(Ok(())), None);
    assert_eq!(job.advance(), DeleteStep::Finished(Ok(1)));
}

#[test]
fn cleanup_takes_the_extension_it_is_given() {
    let listing = vec![file("a.webp"), file("b.PNG")];
    let mut job = delete_webp_files(PathKind::Directory, Ok(listing), "png").unwrap();
    assert_eq!(job.advance(), DeleteStep::Remove(1));
}

#[test]
fn cleanup_refuses_what_is_no_directory() {
    for kind in [PathKind::Missing, PathKind::File, PathKind::Other] {
        match delete_webp_files(kind, Ok(vec![file("a.webp")]), "webp") {
            Err(e) => assert_eq!(e, ConvertError::InvalidPath),
            Ok(_) => panic!("accepted"),
        }
    }
    match delete_webp_files(PathKind::Directory, Err("denied".to_string()), "webp") {
        Err(e) => assert_eq!(e, ConvertError::Io("Ошибка чтения папки: denied".to_string())),
        Ok(_) => panic!("accepted"),
    }
}
