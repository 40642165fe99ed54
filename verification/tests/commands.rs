use naps2_poc::client::save_as_jpeg_args;
use naps2_poc::decimal::decimal_string;
use naps2_poc::ocr::{languages_args, recognize_args};
use naps2_poc::pdf::{export_pdf_args, import_pdf_args};
use naps2_poc::scan::{list_devices_args, scan_to_images_args};
use naps2_poc::{Driver, PaperSource};

fn owned(tokens: &[&str]) -> Vec<String> {
    tokens.iter().map(|t| t.to_string()).collect()
}

#[test]
fn driver_tokens_are_the_wire_names() {
    assert_eq!(Driver::Default.to_string(), "Default");
    assert_eq!(Driver::Apple.to_string(), "Apple");
    assert_eq!(Driver::Sane.to_string(), "Sane");
    assert_eq!(Driver::Escl.to_string(), "Escl");
    assert_eq!(Driver::Wia.to_string(), "Wia");
    assert_eq!(Driver::Twain.to_string(), "Twain");
}

#[test]
fn driver_tokens_do_not_collide() {
    let all = [
        Driver::Default,
        Driver::Apple,
        Driver::Sane,
        Driver::Escl,
        Driver::Wia,
        Driver::Twain,
    ];
    for (i, a) in all.iter().enumerate() {
        assert!(!a.to_string().is_empty());
        for (j, b) in all.iter().enumerate() {
            assert_eq!(a.to_string() == b.to_string(), i == j);
        }
    }
}

#[test]
fn paper_source_tokens_are_the_wire_names() {
    assert_eq!(PaperSource::Flatbed.to_string(), "Flatbed");
    assert_eq!(PaperSource::Feeder.to_string(), "Feeder");
    assert_eq!(PaperSource::Duplex.to_string(), "Duplex");
}

#[test]
fn paper_source_tokens_do_not_collide() {
    let all = [PaperSource::Flatbed, PaperSource::Feeder, PaperSource::Duplex];
    for (i, a) in all.iter().enumerate() {
        assert!(!a.to_string().is_empty());
        for (j, b) in all.iter().enumerate() {
            assert_eq!(a.to_string() == b.to_string(), i == j);
        }
    }
}

#[test]
fn mac_drivers_in_order() {
    assert_eq!(
        Driver::mac_drivers(),
        vec![Driver::Default, Driver::Apple, Driver::Sane, Driver::Escl]
    );
}

#[test]
fn windows_drivers_in_order() {
    assert_eq!(Driver::windows_drivers(), vec![Driver::Default, Driver::Wia, Driver::Twain]);
}

#[test]
fn only_wia_and_twain_are_windows_only() {
    assert!(Driver::Wia.is_windows_only());
    assert!(Driver::Twain.is_windows_only());
    assert!(!Driver::Default.is_windows_only());
    assert!(!Driver::Apple.is_windows_only());
    assert!(!Driver::Sane.is_windows_only());
    assert!(!Driver::Escl.is_windows_only());
    assert!(Driver::mac_drivers().iter().all(|d| !d.is_windows_only()));
}

#[test]
fn list_devices_without_driver_has_two_tokens() {
    assert_eq!(list_devices_args(None), owned(&["scan", "list-devices"]));
}

#[test]
fn list_devices_with_driver_appends_its_token() {
    assert_eq!(
        list_devices_args(Some(Driver::Sane)),
        owned(&["scan", "list-devices", "Sane"])
    );
    assert_eq!(
        list_devices_args(Some(Driver::Twain)),
        owned(&["scan", "list-devices", "Twain"])
    );
}

#[test]
fn scan_to_images_with_everything_named() {
    assert_eq!(
        scan_to_images_args("dev1", Some(Driver::Sane), 300, Some(PaperSource::Feeder)),
        owned(&["scan", "to-images", "dev1", "Sane", "300", "Feeder"])
    );
}

#[test]
fn scan_to_images_without_options_leaves_no_placeholder() {
    let args = scan_to_images_args("dev1", None, 300, None);
    assert_eq!(args, owned(&["scan", "to-images", "dev1", "300"]));
    assert!(args.iter().all(|token| !token.is_empty()));
}

#[test]
fn scan_to_images_with_driver_only() {
    assert_eq!(
        scan_to_images_args("scanner 2", Some(Driver::Escl), 150, None),
        owned(&["scan", "to-images", "scanner 2", "Escl", "150"])
    );
}

#[test]
fn scan_to_images_with_paper_source_only() {
    assert_eq!(
        scan_to_images_args("dev1", None, 600, Some(PaperSource::Duplex)),
        owned(&["scan", "to-images", "dev1", "600", "Duplex"])
    );
}

#[test]
fn scan_to_images_keeps_an_empty_device_id_as_given() {
    assert_eq!(
        scan_to_images_args("", None, 75, Some(PaperSource::Flatbed)),
        owned(&["scan", "to-images", "", "75", "Flatbed"])
    );
}

#[test]
fn scan_to_images_writes_the_resolution_in_decimal() {
    assert_eq!(scan_to_images_args("d", None, 0, None)[3], "0");
    assert_eq!(scan_to_images_args("d", None, 7, None)[3], "7");
    assert_eq!(scan_to_images_args("d", None, 1200, None)[3], "1200");
    assert_eq!(scan_to_images_args("d", None, u32::MAX, None)[3], "4294967295");
}

#[test]
fn building_twice_gives_the_same_arguments() {
    let first = scan_to_images_args("dev1", Some(Driver::Apple), 300, Some(PaperSource::Feeder));
    let second = scan_to_images_args("dev1", Some(Driver::Apple), 300, Some(PaperSource::Feeder));
    assert_eq!(first, second);
    let paths = owned(&["/a.png", "/b.png"]);
    assert_eq!(export_pdf_args("/out.pdf", &paths), export_pdf_args("/out.pdf", &paths));
}

#[test]
fn export_pdf_keeps_the_order_of_the_images() {
    let paths = owned(&["/b.png", "/a.png", "/c.png"]);
    assert_eq!(
        export_pdf_args("/out.pdf", &paths),
        owned(&["pdf", "export", "/out.pdf", "/b.png", "/a.png", "/c.png"])
    );
}

#[test]
fn export_pdf_without_images() {
    let paths: Vec<String> = Vec::new();
    assert_eq!(export_pdf_args("/out.pdf", &paths), owned(&["pdf", "export", "/out.pdf"]));
}

#[test]
fn export_pdf_keeps_repeated_images() {
    let paths = owned(&["/a.png", "/a.png"]);
    assert_eq!(
        export_pdf_args("out.pdf", &paths),
        owned(&["pdf", "export", "out.pdf", "/a.png", "/a.png"])
    );
}

#[test]
fn import_pdf_names_the_file() {
    assert_eq!(import_pdf_args("/in.pdf"), owned(&["pdf", "import", "/in.pdf"]));
}

#[test]
fn save_as_jpeg_puts_the_directory_before_the_images() {
    let paths = owned(&["/1.png", "/2.png"]);
    assert_eq!(
        save_as_jpeg_args(&paths, "/tmp/out"),
        owned(&["pdf", "jpeg", "/tmp/out", "/1.png", "/2.png"])
    );
}

#[test]
fn ocr_languages_has_two_tokens() {
    assert_eq!(languages_args(), owned(&["ocr", "languages"]));
}

#[test]
fn ocr_recognize_names_image_then_language() {
    assert_eq!(
        recognize_args("/scan.png", "eng"),
        owned(&["ocr", "recognize", "/scan.png", "eng"])
    );
}

#[test]
fn decimal_string_of_small_and_large_numbers() {
    assert_eq!(decimal_string(0), "0");
    assert_eq!(decimal_string(9), "9");
    assert_eq!(decimal_string(10), "10");
    assert_eq!(decimal_string(300), "300");
    assert_eq!(decimal_string(1005), "1005");
    assert_eq!(decimal_string(1234567890), "1234567890");
    assert_eq!(decimal_string(4294967295), "4294967295");
}

#[test]
fn decimal_string_agrees_with_the_standard_notation() {
    let mut n: u32 = 0;
    for _ in 0..2000 {
        assert_eq!(decimal_string(n), format!("{}", n));
        n = n.wrapping_mul(1664525).wrapping_add(1013904223);
    }
}
