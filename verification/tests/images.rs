use naps2_poc::{Image, Naps2Image};

#[test]
fn image_from_file_remembers_its_path() {
    let image = Naps2Image::from_file("/tmp/page1.png").unwrap();
    assert_eq!(image.file_path(), "/tmp/page1.png");
}

#[test]
fn image_from_file_is_unmeasured() {
    let image = Naps2Image::from_file("page.png").unwrap();
    assert_eq!(image.width(), 0);
    assert_eq!(image.height(), 0);
}

#[test]
fn image_save_succeeds() {
    let image = Naps2Image::from_file("page.png").unwrap();
    assert!(image.save("/tmp/copy.png").is_ok());
}
