use image::{ImageFormat, Rgba, RgbaImage as Pixels};
use shotpaste::clipboard::{
    write_png, ClipItem, PushJob, PushReply, PushRequest, BMP_FILE_HEADER_LEN, OPEN_ATTEMPTS,
};
use shotpaste::images::{BitmapFault, RgbaImage};
use shotpaste::path::FilePath;
use shotpaste::platform::Platform;
use std::io::Cursor;

fn shot() -> FilePath {
    FilePath {
        bytes: b"/pics/shot.png".to_vec(),
        parts: vec![b"/".to_vec(), b"pics".to_vec(), b"shot.png".to_vec()],
        name: Some(b"shot.png".to_vec()),
        wide: false,
    }
}

fn picture() -> Pixels {
    let mut picture = Pixels::new(2, 1);
    picture.put_pixel(0, 0, Rgba([1, 2, 3, 255]));
    picture.put_pixel(1, 0, Rgba([4, 5, 6, 128]));
    picture
}

fn encoded(format: ImageFormat) -> Vec<u8> {
    let mut bytes: Vec<u8> = Vec::new();
    picture().write_to(&mut Cursor::new(&mut bytes), format).unwrap();
    bytes
}

fn begin(platform: Platform) -> PushJob {
    let (job, request) = write_png(&shot(), platform).unwrap();
    match request {
        PushRequest::ReadFile(path) => assert_eq!(path.display(), "/pics/shot.png"),
        _ => panic!("the file is read first"),
    }
    job
}

fn told(request: PushRequest) -> String {
    match request {
        PushRequest::Finish(Err(failure)) => failure.text(),
        _ => panic!("no failure"),
    }
}

fn failed(words: &str) -> PushReply {
    PushReply::Failed(words.to_string())
}

#[test]
fn windows_gets_image_file_and_path_after_one_emptying() {
    let mut job = begin(Platform::Windows);
    assert!(matches!(
        job.advance(PushReply::Bytes(encoded(ImageFormat::Png))),
        PushRequest::Open
    ));
    assert!(matches!(job.advance(PushReply::Done), PushRequest::Empty));
    match job.advance(PushReply::Done) {
        PushRequest::SetImage(dib) => {
            assert_eq!(dib, encoded(ImageFormat::Bmp)[14..].to_vec());
            assert_eq!(dib[dib.len() - 8..].to_vec(), vec![3, 2, 1, 255, 6, 5, 4, 128]);
        }
        _ => panic!("the image comes first"),
    }
    match job.advance(PushReply::Done) {
        PushRequest::SetFiles(files) => assert_eq!(files, vec!["/pics/shot.png"]),
        _ => panic!("the file comes second"),
    }
    match job.advance(PushReply::Done) {
        PushRequest::SetText(text) => assert_eq!(text, "/pics/shot.png"),
        _ => panic!("the path comes third"),
    }
    assert!(matches!(job.advance(PushReply::Done), PushRequest::Finish(Ok(()))));
}

#[test]
fn other_systems_get_all_three_in_one_write() {
    for platform in [Platform::Linux, Platform::MacOs, Platform::Unsupported] {
        let mut job = begin(platform);
        assert!(matches!(
            job.advance(PushReply::Bytes(encoded(ImageFormat::Png))),
            PushRequest::Open
        ));
        match job.advance(PushReply::Done) {
            PushRequest::SetAll(items) => {
                assert_eq!(items.len(), 3);
                match &items[0] {
                    ClipItem::Image(image) => {
                        assert_eq!((image.width, image.height), (2, 1));
                        assert_eq!(image.pixels, vec![1, 2, 3, 255, 4, 5, 6, 128]);
                    }
                    _ => panic!("no image"),
                }
                match &items[1] {
                    ClipItem::Files(files) => assert_eq!(files, &vec!["/pics/shot.png"]),
                    _ => panic!("no file"),
                }
                match &items[2] {
                    ClipItem::Text(text) => assert_eq!(text, "/pics/shot.png"),
                    _ => panic!("no path"),
                }
            }
            _ => panic!("one write"),
        }
        assert!(matches!(job.advance(PushReply::Done), PushRequest::Finish(Ok(()))));
    }
}

#[test]
fn a_path_that_is_no_text_is_refused() {
    let path = FilePath {
        bytes: b"/\xff.png".to_vec(),
        parts: vec![b"/".to_vec(), b"\xff.png".to_vec()],
        name: Some(b"\xff.png".to_vec()),
        wide: false,
    };
    for platform in [Platform::Windows, Platform::Linux] {
        let failure = write_png(&path, platform).unwrap_err();
        assert_eq!(failure.text(), "screenshot path is not valid UTF-8");
    }
}

#[test]
fn a_file_that_cannot_be_read_is_told() {
    for platform in [Platform::Windows, Platform::Linux] {
        let mut job = begin(platform);
        assert_eq!(told(job.advance(failed("gone"))), "failed to read /pics/shot.png: gone");
    }
}

#[test]
fn a_file_that_is_no_image_is_told() {
    let mut job = begin(Platform::Windows);
    let text = told(job.advance(PushReply::Bytes(b"not an image".to_vec())));
    assert!(text.starts_with("failed to decode PNG: "), "{}", text);
    let mut job = begin(Platform::Linux);
    let text = told(job.advance(PushReply::Bytes(b"not an image".to_vec())));
    assert!(text.starts_with("failed to decode PNG: "), "{}", text);
}

#[test]
fn each_stage_of_the_bitmap_has_its_words() {
    let cause = || "why".to_string();
    let mut job = begin(Platform::Windows);
    assert_eq!(
        told(job.with_bitmap(Err(BitmapFault::Guess(cause())))),
        "failed to guess image format: why"
    );
    let mut job = begin(Platform::Windows);
    assert_eq!(
        told(job.with_bitmap(Err(BitmapFault::Decode(cause())))),
        "failed to decode PNG: why"
    );
    let mut job = begin(Platform::Windows);
    assert_eq!(
        told(job.with_bitmap(Err(BitmapFault::Encode(cause())))),
        "failed to encode BMP for clipboard: why"
    );
}

#[test]
fn a_bitmap_without_contents_is_refused() {
    let mut job = begin(Platform::Windows);
    assert_eq!(
        told(job.with_bitmap(Ok(vec![0; BMP_FILE_HEADER_LEN]))),
        "encoded BMP is too small (14 bytes)"
    );
    let mut job = begin(Platform::Windows);
    assert_eq!(told(job.with_bitmap(Ok(Vec::new()))), "encoded BMP is too small (0 bytes)");
    let mut job = begin(Platform::Windows);
    let mut bytes = vec![0; 14];
    bytes.push(7);
    assert!(matches!(job.with_bitmap(Ok(bytes)), PushRequest::Open));
    job.advance(PushReply::Done);
    match job.advance(PushReply::Done) {
        PushRequest::SetImage(dib) => assert_eq!(dib, vec![7]),
        _ => panic!("no image"),
    }
}

#[test]
fn pixels_lead_to_the_clipboard_or_a_failure() {
    let mut job = begin(Platform::MacOs);
    assert_eq!(told(job.with_pixels(Err("why".to_string()))), "failed to decode PNG: why");
    let mut job = begin(Platform::MacOs);
    let image = RgbaImage { width: 1, height: 1, pixels: vec![9, 9, 9, 9] };
    assert!(matches!(job.with_pixels(Ok(image)), PushRequest::Open));
}

#[test]
fn a_busy_clipboard_is_tried_again_and_then_opened() {
    let mut job = begin(Platform::Windows);
    job.advance(PushReply::Bytes(encoded(ImageFormat::Png)));
    for _ in 0..3 {
        assert!(matches!(job.advance(failed("5")), PushRequest::Rest(100)));
        assert!(matches!(job.advance(PushReply::Done), PushRequest::Open));
    }
    assert!(matches!(job.advance(PushReply::Done), PushRequest::Empty));
}

#[test]
fn a_clipboard_that_stays_busy_is_given_up_after_twenty_attempts() {
    let mut job = begin(Platform::Windows);
    job.advance(PushReply::Bytes(encoded(ImageFormat::Png)));
    for attempt in 1..=OPEN_ATTEMPTS {
        assert!(matches!(job.advance(failed("5")), PushRequest::Rest(100)));
        let next = job.advance(PushReply::Done);
        if attempt < 20 {
            assert!(matches!(next, PushRequest::Open));
        } else {
            assert_eq!(told(next), "failed to open clipboard after 20 attempts (code 5)");
        }
    }
}

#[test]
fn each_windows_step_has_its_words() {
    let words = [
        "failed to empty clipboard (code 8)",
        "failed to set CF_DIB (code 8)",
        "failed to set CF_HDROP (code 8)",
        "failed to set CF_UNICODETEXT (code 8)",
    ];
    for (done, expected) in words.iter().enumerate() {
        let mut job = begin(Platform::Windows);
        job.advance(PushReply::Bytes(encoded(ImageFormat::Png)));
        for _ in 0..=done {
            job.advance(PushReply::Done);
        }
        assert_eq!(&told(job.advance(failed("8"))), expected);
    }
}

#[test]
fn each_other_step_has_its_words() {
    let mut job = begin(Platform::Linux);
    job.advance(PushReply::Bytes(encoded(ImageFormat::Png)));
    assert_eq!(told(job.advance(failed("no display"))), "failed to open clipboard: no display");
    let mut job = begin(Platform::Linux);
    job.advance(PushReply::Bytes(encoded(ImageFormat::Png)));
    job.advance(PushReply::Done);
    assert_eq!(told(job.advance(failed("lost"))), "failed to set clipboard: lost");
}
