use wallpicker::lister::{filter_image_entries, is_image_file, list_wallpapers};
use wallpicker::{DirEntryInfo, DirProbe, ErrorKind, MissingDir};

fn entry(dir: &str, name: &str) -> DirEntryInfo {
    DirEntryInfo { name: name.to_string(), path: format!("{}/{}", dir, name) }
}

const DIR: &str = "/home/user/Pictures/wallpapers";

#[test]
fn empty_directory_lists_empty() {
    let r = list_wallpapers(DirProbe::Read(vec![]));
    match r {
        Ok(v) => assert!(v.is_empty()),
        Err(_) => panic!("an empty directory must not be an error"),
    }
}

#[test]
fn only_non_image_files_list_empty() {
    let entries = vec![
        entry(DIR, "c.txt"),
        entry(DIR, "notes"),
        entry(DIR, "README"),
        entry(DIR, "movie.mp4"),
    ];
    let r = list_wallpapers(DirProbe::Read(entries));
    match r {
        Ok(v) => assert!(v.is_empty()),
        Err(_) => panic!("non-image files must be skipped, not an error"),
    }
}

#[test]
fn supported_extensions_any_casing_included_once() {
    let entries = vec![
        entry(DIR, "a.JPG"),
        entry(DIR, "b.jpg"),
        entry(DIR, "c.JpG"),
        entry(DIR, "d.WebP"),
        entry(DIR, "e.PnG"),
        entry(DIR, "f.JPEG"),
    ];
    let r = list_wallpapers(DirProbe::Read(entries)).unwrap();
    assert_eq!(r.len(), 6);
    for name in ["a.JPG", "b.jpg", "c.JpG", "d.WebP", "e.PnG", "f.JPEG"] {
        let p = format!("{}/{}", DIR, name);
        assert_eq!(r.iter().filter(|x| **x == p).count(), 1);
    }
}

#[test]
fn unlisted_or_missing_extension_excluded() {
    let entries = vec![
        entry(DIR, "notes"),
        entry(DIR, ".png"),
        entry(DIR, "x.gif"),
        entry(DIR, "y.txt"),
        entry(DIR, "z."),
        entry(DIR, "w.png.bak"),
    ];
    let r = list_wallpapers(DirProbe::Read(entries)).unwrap();
    assert!(r.is_empty());
}

#[test]
fn missing_wallpapers_dir_is_directory_not_found() {
    let r = list_wallpapers(DirProbe::NoWallpapersDir);
    match r {
        Ok(_) => panic!("a missing wallpapers directory must be an error"),
        Err(e) => {
            assert!(matches!(e, ErrorKind::DirectoryNotFound(MissingDir::Wallpapers)));
            assert_eq!(e.message(), "Wallpapers directory not found");
        }
    }
}

#[test]
fn missing_pictures_dir_is_directory_not_found() {
    let r = list_wallpapers(DirProbe::NoPicturesDir);
    match r {
        Ok(_) => panic!("a missing pictures directory must be an error"),
        Err(e) => {
            assert!(matches!(e, ErrorKind::DirectoryNotFound(MissingDir::Pictures)));
            assert_eq!(e.message(), "Could not find Pictures directory");
        }
    }
}

#[test]
fn failed_read_is_io_error_with_os_text() {
    let r = list_wallpapers(DirProbe::ReadFailed("permission denied".to_string()));
    match r {
        Ok(_) => panic!("a failed read must abort the listing"),
        Err(e) => {
            assert!(matches!(e, ErrorKind::IoError(_)));
            assert_eq!(e.message(), "permission denied");
        }
    }
}

#[test]
fn subdirectories_are_not_descended() {
    // The scan sees only the direct entries: the subdirectory itself appears
    // as a name without an image extension, and whatever it nests never does.
    let entries = vec![entry(DIR, "sub"), entry(DIR, "a.png")];
    let r = list_wallpapers(DirProbe::Read(entries)).unwrap();
    assert_eq!(r, vec![format!("{}/a.png", DIR)]);
}

#[test]
fn multi_dot_names_judged_by_final_extension() {
    let entries = vec![entry(DIR, "archive.tar.gz"), entry(DIR, "photo.backup.png")];
    let r = list_wallpapers(DirProbe::Read(entries)).unwrap();
    assert_eq!(r, vec![format!("{}/photo.backup.png", DIR)]);
}

#[test]
fn end_to_end_mixed_directory() {
    let entries = vec![
        entry(DIR, "a.png"),
        entry(DIR, "b.PNG"),
        entry(DIR, "c.txt"),
        entry(DIR, "notes"),
    ];
    let r = list_wallpapers(DirProbe::Read(entries)).unwrap();
    assert_eq!(r.len(), 2);
    assert!(r.contains(&format!("{}/a.png", DIR)));
    assert!(r.contains(&format!("{}/b.PNG", DIR)));
}

#[test]
fn filter_keeps_directory_order() {
    let entries = vec![entry(DIR, "z.webp"), entry(DIR, "m.txt"), entry(DIR, "a.jpeg")];
    let r = filter_image_entries(&entries);
    assert_eq!(r, vec![format!("{}/z.webp", DIR), format!("{}/a.jpeg", DIR)]);
}

#[test]
fn image_file_names() {
    assert!(is_image_file("a.png"));
    assert!(is_image_file("a.PNG"));
    assert!(is_image_file("a.jpg"));
    assert!(is_image_file("a.JpG"));
    assert!(is_image_file("a.jpeg"));
    assert!(is_image_file("a.JPEG"));
    assert!(is_image_file("a.webp"));
    assert!(is_image_file("a.WEBP"));
    assert!(!is_image_file("a.gif"));
    assert!(!is_image_file("a.txt"));
    assert!(!is_image_file("notes"));
    assert!(!is_image_file(".png"));
    assert!(!is_image_file("a."));
    assert!(!is_image_file(""));
    assert!(!is_image_file("png"));
    assert!(!is_image_file("a.pngg"));
    assert!(!is_image_file("a.pn"));
}
