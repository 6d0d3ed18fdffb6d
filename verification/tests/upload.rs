use furachat::error::AppError;
use furachat::upload::{
    check_chunk_fits, check_upload_size, content_type_for_path, file_extension,
    new_stored_file_name, sanitize_filename, stored_file_name, validate_image_content_type,
    within_dir, MAX_IMAGE_SIZE,
};

fn bad_request(r: Result<(), AppError>) -> String {
    match r {
        Err(AppError::BadRequest(m)) => m,
        other => panic!("expected BadRequest, got {:?}", other),
    }
}

#[test]
fn image_types() {
    for t in ["image/png", "image/jpeg", "image/gif", "image/webp"] {
        assert!(validate_image_content_type(Some(t)).is_ok());
    }
    assert_eq!(
        bad_request(validate_image_content_type(Some("image/svg+xml"))),
        "Type de fichier non autorisé : image/svg+xml. Types acceptés : PNG, JPEG, GIF, WebP"
    );
    assert_eq!(
        bad_request(validate_image_content_type(None)),
        "Type de fichier non spécifié. Types acceptés : PNG, JPEG, GIF, WebP"
    );
    assert!(validate_image_content_type(Some("IMAGE/PNG")).is_err());
}

#[test]
fn chunk_limits() {
    assert!(check_chunk_fits(0, MAX_IMAGE_SIZE, MAX_IMAGE_SIZE).is_ok());
    assert!(check_chunk_fits(5, 5, 10).is_ok());
    assert_eq!(bad_request(check_chunk_fits(6, 5, 10)), "Fichier trop volumineux (max 0 Mo)");
    assert_eq!(
        bad_request(check_chunk_fits(MAX_IMAGE_SIZE, 1, MAX_IMAGE_SIZE)),
        "Fichier trop volumineux (max 10 Mo)"
    );
    assert!(check_chunk_fits(usize::MAX, usize::MAX, usize::MAX).is_err());
}

#[test]
fn upload_size_limit() {
    let max = 50 * 1024 * 1024;
    assert!(check_upload_size(max, max).is_ok());
    assert_eq!(bad_request(check_upload_size(max + 1, max)), "Fichier trop volumineux (max 50 Mo)");
}

#[test]
fn sanitizing_names() {
    assert_eq!(sanitize_filename("my file (1).png"), "my_file__1_.png");
    assert_eq!(sanitize_filename("été-2024_v2.JPG"), "été-2024_v2.JPG");
    assert_eq!(sanitize_filename("../../etc/passwd"), ".._.._etc_passwd");
    assert_eq!(sanitize_filename(""), "");
    let long = "a".repeat(80);
    assert_eq!(sanitize_filename(&long), "a".repeat(50));
}

#[test]
fn extensions() {
    assert_eq!(file_extension("a.tar.gz"), "gz");
    assert_eq!(file_extension("noext"), "noext");
    assert_eq!(file_extension("trailing."), "");
    assert_eq!(file_extension(""), "");
    assert_eq!(file_extension(".hidden"), "hidden");
}

#[test]
fn stored_names() {
    assert_eq!(stored_file_name("ID", "my photo.png"), "ID_my_photo.png.png");
    assert_eq!(stored_file_name("ID", "README"), "ID_README.README");
    let n = new_stored_file_name("x.pdf");
    assert_eq!(n.chars().count(), 36 + "_x.pdf.pdf".len());
    assert!(n.ends_with("_x.pdf.pdf"));
    assert_ne!(new_stored_file_name("x.pdf"), n);
}

#[test]
fn content_types() {
    assert_eq!(content_type_for_path("avatars/u.png"), "image/png");
    assert_eq!(content_type_for_path("a.jpg"), "image/jpeg");
    assert_eq!(content_type_for_path("a.jpeg"), "image/jpeg");
    assert_eq!(content_type_for_path("a.gif"), "image/gif");
    assert_eq!(content_type_for_path("a.webp"), "image/webp");
    assert_eq!(content_type_for_path("a.mp4"), "video/mp4");
    assert_eq!(content_type_for_path("a.webm"), "video/webm");
    assert_eq!(content_type_for_path("a.mp3"), "audio/mpeg");
    assert_eq!(content_type_for_path("a.ogg"), "audio/ogg");
    assert_eq!(content_type_for_path("a.pdf"), "application/pdf");
    assert_eq!(content_type_for_path("a.PNG"), "application/octet-stream");
    assert_eq!(content_type_for_path("png"), "image/png");
    assert_eq!(content_type_for_path("archive"), "application/octet-stream");
}

#[test]
fn sanitizing_twice_changes_nothing() {
    for name in ["my file (1).png", "../../etc/passwd", "a\\b:c*d?e\"f<g>h|i", "日本語 ファイル.txt", ""] {
        let once = sanitize_filename(name);
        assert_eq!(sanitize_filename(&once), once);
        assert!(once.chars().count() <= 50);
        assert!(once.chars().all(|c| c.is_alphanumeric() || c == '.' || c == '-' || c == '_'));
    }
    let long = "x/".repeat(40);
    assert_eq!(sanitize_filename(&sanitize_filename(&long)), "x_".repeat(25));
}

#[test]
fn stored_names_start_with_a_v4_uuid() {
    let name = new_stored_file_name("my file!.png");
    let id: Vec<char> = name.chars().take(36).collect();
    for (i, c) in id.iter().enumerate() {
        if [8, 13, 18, 23].contains(&i) {
            assert_eq!(*c, '-');
        } else {
            assert!(c.is_ascii_hexdigit() && !c.is_ascii_uppercase());
        }
    }
    assert_eq!(id[14], '4');
    assert!(['8', '9', 'a', 'b'].contains(&id[19]));
    assert_eq!(&name[36..], "_my_file_.png.png");
    assert_eq!(sanitize_filename("my file!.png"), "my_file_.png");
}

#[test]
fn files_inside_the_data_directory() {
    assert!(within_dir("/srv/data", "/srv/data", '/'));
    assert!(within_dir("/srv/data/uploads/a.png", "/srv/data", '/'));
    assert!(within_dir("/etc/passwd", "/", '/'));
    assert!(within_dir("C:\\data\\a.png", "C:\\data", '\\'));
}

#[test]
fn files_outside_the_data_directory() {
    assert!(!within_dir("/srv/database/a.png", "/srv/data", '/'));
    assert!(!within_dir("/srv", "/srv/data", '/'));
    assert!(!within_dir("/etc/passwd", "/srv/data", '/'));
    assert!(!within_dir("/srv/data\\a.png", "/srv/data", '/'));
}
