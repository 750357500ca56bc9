//! Putting a screenshot on the clipboard in three forms at once.
//!
//! A clipboard takes several forms of one thing in a single transaction. On
//! Windows it is opened, emptied once, given each form in turn and closed;
//! elsewhere all the forms are handed over together. Emptying between the
//! forms would lose those given before.
use crate::failure;
use crate::failure::{Failure, FailureView};
use crate::images;
use crate::images::{to_bitmap, to_rgba, BitmapFault, FaultView, ImageView, RgbaImage};
use crate::path;
use crate::path::{FilePath, PathView};
use crate::platform::Platform;
use crate::text;
use crate::text::decimal;
use vstd::pervasive::unreached;
use vstd::prelude::*;
use vstd::string::*;

verus! {

/// The bytes of a BMP file before the part that the clipboard takes.
pub const BMP_FILE_HEADER_LEN: usize = 14;

/// How often opening the clipboard is tried on Windows. Screenshot tools hold
/// it for a while when they have just made the picture.
pub const OPEN_ATTEMPTS: u32 = 20;

/// How long to wait after an attempt that failed, in milliseconds.
pub const OPEN_RETRY_MILLIS: u64 = 100;

/// One form of what the clipboard holds.
#[derive(Debug)]
pub enum ClipItem {
    Image(RgbaImage),
    Files(Vec<String>),
    Text(String),
}

/// The contents of a [`ClipItem`].
#[verifier::ext_equal]
pub enum ClipItemView {
    Image(ImageView),
    Files(Seq<Seq<char>>),
    Text(Seq<char>),
}

impl DeepView for ClipItem {
    type V = ClipItemView;

    open spec fn deep_view(&self) -> ClipItemView {
        match *self {
            ClipItem::Image(image) => ClipItemView::Image(image@),
            ClipItem::Files(files) => ClipItemView::Files(files.deep_view()),
            ClipItem::Text(s) => ClipItemView::Text(s@),
        }
    }
}

/// Where a push stands: which answer it waits for.
#[derive(Debug)]
pub enum PushPhase {
    Reading,
    /// Waiting for the clipboard to open, `failed` times in vain so far.
    Opening { dib: Vec<u8>, failed: u32 },
    /// Waiting before the next attempt, with the latest error.
    Resting { dib: Vec<u8>, failed: u32, error: String },
    Emptying { dib: Vec<u8> },
    SettingImage,
    SettingFiles,
    SettingText,
    /// Waiting for the clipboard that takes all forms together.
    Connecting { image: RgbaImage },
    SettingAll,
    Finished,
}

/// The contents of a [`PushPhase`].
#[verifier::ext_equal]
pub enum PushPhaseView {
    Reading,
    Opening { dib: Seq<u8>, failed: nat },
    Resting { dib: Seq<u8>, failed: nat, error: Seq<char> },
    Emptying { dib: Seq<u8> },
    SettingImage,
    SettingFiles,
    SettingText,
    Connecting { image: ImageView },
    SettingAll,
    Finished,
}

impl View for PushPhase {
    type V = PushPhaseView;

    open spec fn view(&self) -> PushPhaseView {
        match *self {
            PushPhase::Reading => PushPhaseView::Reading,
            PushPhase::Opening { dib, failed } => PushPhaseView::Opening {
                dib: dib@,
                failed: failed as nat,
            },
            PushPhase::Resting { dib, failed, error } => PushPhaseView::Resting {
                dib: dib@,
                failed: failed as nat,
                error: error@,
            },
            PushPhase::Emptying { dib } => PushPhaseView::Emptying { dib: dib@ },
            PushPhase::SettingImage => PushPhaseView::SettingImage,
            PushPhase::SettingFiles => PushPhaseView::SettingFiles,
            PushPhase::SettingText => PushPhaseView::SettingText,
            PushPhase::Connecting { image } => PushPhaseView::Connecting { image: image@ },
            PushPhase::SettingAll => PushPhaseView::SettingAll,
            PushPhase::Finished => PushPhaseView::Finished,
        }
    }
}

/// What a push asks of the system.
#[derive(Debug)]
pub enum PushRequest {
    ReadFile(FilePath),
    /// Open the clipboard and keep it open until the push has ended.
    Open,
    /// Wait for this many milliseconds.
    Rest(u64),
    Empty,
    /// Set the bitmap form (`CF_DIB`), leaving the other forms.
    SetImage(Vec<u8>),
    /// Set the file-list form (`CF_HDROP`), leaving the other forms.
    SetFiles(Vec<String>),
    /// Set the text form (`CF_UNICODETEXT`), leaving the other forms.
    SetText(String),
    /// Set all forms in one write.
    SetAll(Vec<ClipItem>),
    /// The push has ended.
    Finish(Result<(), Failure>),
}

/// The contents of a [`PushRequest`].
#[verifier::ext_equal]
pub enum PushRequestView {
    ReadFile(PathView),
    Open,
    Rest(u64),
    Empty,
    SetImage(Seq<u8>),
    SetFiles(Seq<Seq<char>>),
    SetText(Seq<char>),
    SetAll(Seq<ClipItemView>),
    Finish(Result<(), FailureView>),
}

impl View for PushRequest {
    type V = PushRequestView;

    open spec fn view(&self) -> PushRequestView {
        match *self {
            PushRequest::ReadFile(p) => PushRequestView::ReadFile(p@),
            PushRequest::Open => PushRequestView::Open,
            PushRequest::Rest(millis) => PushRequestView::Rest(millis),
            PushRequest::Empty => PushRequestView::Empty,
            PushRequest::SetImage(dib) => PushRequestView::SetImage(dib@),
            PushRequest::SetFiles(files) => PushRequestView::SetFiles(files.deep_view()),
            PushRequest::SetText(s) => PushRequestView::SetText(s@),
            PushRequest::SetAll(items) => PushRequestView::SetAll(items.deep_view()),
            PushRequest::Finish(Ok(())) => PushRequestView::Finish(Ok(())),
            PushRequest::Finish(Err(e)) => PushRequestView::Finish(Err(e@)),
        }
    }
}

/// What the system answers.
#[derive(Debug)]
pub enum PushReply {
    /// The contents of the file.
    Bytes(Vec<u8>),
    Done,
    /// The request failed, with the system's own words.
    Failed(String),
}

/// The contents of a [`PushReply`].
#[verifier::ext_equal]
pub enum PushReplyView {
    Bytes(Seq<u8>),
    Done,
    Failed(Seq<char>),
}

impl View for PushReply {
    type V = PushReplyView;

    open spec fn view(&self) -> PushReplyView {
        match *self {
            PushReply::Bytes(bytes) => PushReplyView::Bytes(bytes@),
            PushReply::Done => PushReplyView::Done,
            PushReply::Failed(cause) => PushReplyView::Failed(cause@),
        }
    }
}

/// A push under way.
#[derive(Debug)]
pub struct PushJob {
    pub platform: Platform,
    pub path: FilePath,
    /// The path as text.
    pub text: String,
    pub phase: PushPhase,
}

/// The contents of a [`PushJob`].
#[verifier::ext_equal]
pub struct PushView {
    pub platform: Platform,
    pub path: PathView,
    pub text: Seq<char>,
    pub phase: PushPhaseView,
}

impl View for PushJob {
    type V = PushView;

    open spec fn view(&self) -> PushView {
        PushView {
            platform: self.platform,
            path: self.path@,
            text: self.text@,
            phase: self.phase@,
        }
    }
}

/// Whether `reply` answers what the push waits for.
pub open spec fn push_answers(phase: PushPhaseView, reply: PushReplyView) -> bool {
    match phase {
        PushPhaseView::Reading => reply is Bytes || reply is Failed,
        PushPhaseView::Resting { .. } => reply is Done,
        PushPhaseView::Finished => false,
        _ => reply is Done || reply is Failed,
    }
}

/// What holds of a push at all times: there are attempts left.
pub open spec fn push_sound(phase: PushPhaseView) -> bool {
    match phase {
        PushPhaseView::Opening { failed, .. } => failed < OPEN_ATTEMPTS,
        PushPhaseView::Resting { failed, .. } => 0 < failed <= OPEN_ATTEMPTS,
        _ => true,
    }
}

/// Where a push stands after an answer, and what it asks next.
pub type PushStep = (PushPhaseView, PushRequestView);

/// Ends a push with a failure.
pub open spec fn give_up(f: FailureView) -> PushStep {
    (PushPhaseView::Finished, PushRequestView::Finish(Err(f)))
}

/// What is told when a step on the Windows clipboard fails.
pub open spec fn code_failure(what: Seq<char>, code: Seq<char>) -> FailureView {
    failure::plain_failure(what + " (code "@ + code + ")"@)
}

/// What a push on Windows does with the BMP file made of the screenshot: the
/// clipboard takes it without its file header.
pub open spec fn with_bitmap(result: Result<Seq<u8>, FaultView>) -> PushStep {
    match result {
        Err(FaultView::Guess(cause)) => give_up(
            failure::caused_failure("failed to guess image format"@, cause),
        ),
        Err(FaultView::Decode(cause)) => give_up(
            failure::caused_failure("failed to decode PNG"@, cause),
        ),
        Err(FaultView::Encode(cause)) => give_up(
            failure::caused_failure("failed to encode BMP for clipboard"@, cause),
        ),
        Ok(bmp) => if bmp.len() <= BMP_FILE_HEADER_LEN {
            give_up(
                failure::plain_failure(
                    "encoded BMP is too small ("@ + text::decimal_text(bmp.len()) + " bytes)"@,
                ),
            )
        } else {
            (
                PushPhaseView::Opening { dib: bmp.skip(BMP_FILE_HEADER_LEN as int), failed: 0 },
                PushRequestView::Open,
            )
        },
    }
}

/// What a push elsewhere does with the pixels of the screenshot.
pub open spec fn with_pixels(result: Result<ImageView, Seq<char>>) -> PushStep {
    match result {
        Err(cause) => give_up(failure::plain_failure("failed to decode PNG: "@ + cause)),
        Ok(image) => (PushPhaseView::Connecting { image }, PushRequestView::Open),
    }
}

/// The three forms of a screenshot.
pub open spec fn all_forms(image: ImageView, text: Seq<char>) -> Seq<ClipItemView> {
    seq![ClipItemView::Image(image), ClipItemView::Files(seq![text]), ClipItemView::Text(text)]
}

/// What a push does with an answer.
pub open spec fn push_next(job: PushView, reply: PushReplyView) -> PushStep {
    match (job.phase, reply) {
        (PushPhaseView::Reading, PushReplyView::Failed(cause)) => give_up(
            failure::caused_failure("failed to read "@ + path::shown(job.path), cause),
        ),
        (PushPhaseView::Reading, PushReplyView::Bytes(bytes)) => if job.platform
            == Platform::Windows {
            with_bitmap(images::bitmap_of(bytes))
        } else {
            with_pixels(images::clipboard_image(bytes))
        },
        (PushPhaseView::Opening { dib, failed }, PushReplyView::Failed(error)) => (
            PushPhaseView::Resting { dib, failed: failed + 1, error },
            PushRequestView::Rest(OPEN_RETRY_MILLIS),
        ),
        (PushPhaseView::Resting { dib, failed, error }, _) => if failed < OPEN_ATTEMPTS {
            (PushPhaseView::Opening { dib, failed }, PushRequestView::Open)
        } else {
            give_up(
                code_failure(
                    "failed to open clipboard after "@ + text::decimal_text(OPEN_ATTEMPTS as nat)
                        + " attempts"@,
                    error,
                ),
            )
        },
        (PushPhaseView::Opening { dib, failed }, _) => (
            PushPhaseView::Emptying { dib },
            PushRequestView::Empty,
        ),
        (PushPhaseView::Emptying { dib }, PushReplyView::Failed(error)) => give_up(
            code_failure("failed to empty clipboard"@, error),
        ),
        (PushPhaseView::Emptying { dib }, _) => (
            PushPhaseView::SettingImage,
            PushRequestView::SetImage(dib),
        ),
        (PushPhaseView::SettingImage, PushReplyView::Failed(error)) => give_up(
            code_failure("failed to set CF_DIB"@, error),
        ),
        (PushPhaseView::SettingImage, _) => (
            PushPhaseView::SettingFiles,
            PushRequestView::SetFiles(seq![job.text]),
        ),
        (PushPhaseView::SettingFiles, PushReplyView::Failed(error)) => give_up(
            code_failure("failed to set CF_HDROP"@, error),
        ),
        (PushPhaseView::SettingFiles, _) => (
            PushPhaseView::SettingText,
            PushRequestView::SetText(job.text),
        ),
        (PushPhaseView::SettingText, PushReplyView::Failed(error)) => give_up(
            code_failure("failed to set CF_UNICODETEXT"@, error),
        ),
        (PushPhaseView::Connecting { .. }, PushReplyView::Failed(error)) => give_up(
            failure::plain_failure("failed to open clipboard: "@ + error),
        ),
        (PushPhaseView::Connecting { image }, _) => (
            PushPhaseView::SettingAll,
            PushRequestView::SetAll(all_forms(image, job.text)),
        ),
        (PushPhaseView::SettingAll, PushReplyView::Failed(error)) => give_up(
            failure::plain_failure("failed to set clipboard: "@ + error),
        ),
        _ => (PushPhaseView::Finished, PushRequestView::Finish(Ok(()))),
    }
}

/// Begins to put the screenshot `path` on the clipboard.
pub fn write_png(path: &FilePath, platform: Platform) -> (r: Result<(PushJob, PushRequest), Failure>)
    ensures
        (match (r, path::path_text(path@)) {
            (Ok((job, request)), Some(text)) => {
                &&& job@ == (PushView {
                    platform,
                    path: path@,
                    text,
                    phase: PushPhaseView::Reading,
                })
                &&& request@ == PushRequestView::ReadFile(path@)
            },
            (Err(e), None) => e@ == failure::plain_failure("screenshot path is not valid UTF-8"@),
            _ => false,
        }),
{
    match path.to_text() {
        Some(text) => {
            let job = PushJob {
                platform,
                path: path.duplicate(),
                text,
                phase: PushPhase::Reading,
            };
            Ok((job, PushRequest::ReadFile(path.duplicate())))
        },
        None => Err(Failure::plain("screenshot path is not valid UTF-8".to_owned())),
    }
}

fn coded(what: &str, code: String) -> (r: Failure)
    ensures
        r@ == code_failure(what@, code@),
{
    Failure::plain(what.to_owned().concat(" (code ").concat(code.as_str()).concat(")"))
}

impl PushJob {
    fn finish(&mut self, f: Failure) -> (r: PushRequest)
        ensures
            r@ == PushRequestView::Finish(Err(f@)),
            final(self)@ == (PushView { phase: PushPhaseView::Finished, ..old(self)@ }),
    {
        self.phase = PushPhase::Finished;
        PushRequest::Finish(Err(f))
    }

    /// Goes on with the BMP file made of the screenshot.
    pub fn with_bitmap(&mut self, result: Result<Vec<u8>, BitmapFault>) -> (r: PushRequest)
        ensures
            with_bitmap(images::bitmap_view(result)) == (final(self)@.phase, r@),
            result matches Ok(bmp) ==> (bmp@.len() > BMP_FILE_HEADER_LEN ==> final(self)@.phase == (
            PushPhaseView::Opening { dib: bmp@.skip(BMP_FILE_HEADER_LEN as int), failed: 0 }) && r@
                == PushRequestView::Open),
            final(self)@ == (PushView { phase: final(self)@.phase, ..old(self)@ }),
            push_sound(final(self)@.phase),
    {
        match result {
            Err(BitmapFault::Guess(cause)) => self.finish(
                Failure::caused("failed to guess image format".to_owned(), cause),
            ),
            Err(BitmapFault::Decode(cause)) => self.finish(
                Failure::caused("failed to decode PNG".to_owned(), cause),
            ),
            Err(BitmapFault::Encode(cause)) => self.finish(
                Failure::caused("failed to encode BMP for clipboard".to_owned(), cause),
            ),
            Ok(bmp) => {
                if bmp.len() <= BMP_FILE_HEADER_LEN {
                    let size = decimal(bmp.len() as u64);
                    return self.finish(
                        Failure::plain(
                            "encoded BMP is too small (".to_owned().concat(size.as_str()).concat(
                                " bytes)",
                            ),
                        ),
                    );
                }
                let mut bmp = bmp;
                let ghost whole = bmp@;
                let dib = bmp.split_off(BMP_FILE_HEADER_LEN);
                assert(dib@ =~= whole.skip(BMP_FILE_HEADER_LEN as int));
                self.phase = PushPhase::Opening { dib, failed: 0 };
                PushRequest::Open
            },
        }
    }

    /// Goes on with the pixels of the screenshot.
    pub fn with_pixels(&mut self, result: Result<RgbaImage, String>) -> (r: PushRequest)
        ensures
            with_pixels(images::rgba_view(result)) == (final(self)@.phase, r@),
            result matches Ok(image) ==> final(self)@.phase == (PushPhaseView::Connecting {
                image: image@,
            }) && r@ == PushRequestView::Open,
            final(self)@ == (PushView { phase: final(self)@.phase, ..old(self)@ }),
            push_sound(final(self)@.phase),
    {
        match result {
            Err(cause) => self.finish(
                Failure::plain("failed to decode PNG: ".to_owned().concat(cause.as_str())),
            ),
            Ok(image) => {
                self.phase = PushPhase::Connecting { image };
                PushRequest::Open
            },
        }
    }

    /// Takes the answer to what was asked last; answers what to ask next.
    pub fn advance(&mut self, reply: PushReply) -> (r: PushRequest)
        requires
            push_sound(old(self)@.phase),
            push_answers(old(self)@.phase, reply@),
        ensures
            push_next(old(self)@, reply@) == (final(self)@.phase, r@),
            final(self)@ == (PushView { phase: final(self)@.phase, ..old(self)@ }),
            push_sound(final(self)@.phase),
    {
        let mut phase = PushPhase::Finished;
        std::mem::swap(&mut phase, &mut self.phase);
        match phase {
            PushPhase::Reading => match reply {
                PushReply::Bytes(bytes) => match self.platform {
                    Platform::Windows => self.with_bitmap(to_bitmap(&bytes)),
                    _ => self.with_pixels(to_rgba(&bytes)),
                },
                PushReply::Failed(cause) => {
                    let context = "failed to read ".to_owned().concat(
                        self.path.display().as_str(),
                    );
                    self.finish(Failure::caused(context, cause))
                },
                PushReply::Done => unreached(),
            },
            PushPhase::Opening { dib, failed } => match reply {
                PushReply::Failed(error) => {
                    self.phase = PushPhase::Resting { dib, failed: failed + 1, error };
                    PushRequest::Rest(OPEN_RETRY_MILLIS)
                },
                _ => {
                    self.phase = PushPhase::Emptying { dib };
                    PushRequest::Empty
                },
            },
            PushPhase::Resting { dib, failed, error } => if failed < OPEN_ATTEMPTS {
                self.phase = PushPhase::Opening { dib, failed };
                PushRequest::Open
            } else {
                let what = "failed to open clipboard after ".to_owned().concat(
                    decimal(OPEN_ATTEMPTS as u64).as_str(),
                ).concat(" attempts");
                self.finish(coded(what.as_str(), error))
            },
            PushPhase::Emptying { dib } => match reply {
                PushReply::Failed(error) => self.finish(coded("failed to empty clipboard", error)),
                _ => {
                    self.phase = PushPhase::SettingImage;
                    PushRequest::SetImage(dib)
                },
            },
            PushPhase::SettingImage => match reply {
                PushReply::Failed(error) => self.finish(coded("failed to set CF_DIB", error)),
                _ => {
                    self.phase = PushPhase::SettingFiles;
                    let mut files: Vec<String> = Vec::new();
                    files.push(self.text.clone());
                    assert(files.deep_view() =~= seq![self.text@]);
                    PushRequest::SetFiles(files)
                },
            },
            PushPhase::SettingFiles => match reply {
                PushReply::Failed(error) => self.finish(coded("failed to set CF_HDROP", error)),
                _ => {
                    self.phase = PushPhase::SettingText;
                    PushRequest::SetText(self.text.clone())
                },
            },
            PushPhase::SettingText => match reply {
                PushReply::Failed(error) => self.finish(
                    coded("failed to set CF_UNICODETEXT", error),
                ),
                _ => {
                    self.phase = PushPhase::Finished;
                    PushRequest::Finish(Ok(()))
                },
            },
            PushPhase::Connecting { image } => match reply {
                PushReply::Failed(error) => self.finish(
                    Failure::plain("failed to open clipboard: ".to_owned().concat(error.as_str())),
                ),
                _ => {
                    self.phase = PushPhase::SettingAll;
                    let mut files: Vec<String> = Vec::new();
                    files.push(self.text.clone());
                    assert(files.deep_view() =~= seq![self.text@]);
                    let mut items: Vec<ClipItem> = Vec::new();
                    items.push(ClipItem::Image(image));
                    items.push(ClipItem::Files(files));
                    items.push(ClipItem::Text(self.text.clone()));
                    assert(items.deep_view() =~= all_forms(image@, self.text@));
                    PushRequest::SetAll(items)
                },
            },
            PushPhase::SettingAll => match reply {
                PushReply::Failed(error) => self.finish(
                    Failure::plain("failed to set clipboard: ".to_owned().concat(error.as_str())),
                ),
                _ => {
                    self.phase = PushPhase::Finished;
                    PushRequest::Finish(Ok(()))
                },
            },
            PushPhase::Finished => unreached(),
        }
    }
}

/// The push after an answer.
pub open spec fn push_after(job: PushView, reply: PushReplyView) -> PushView {
    PushView { phase: push_next(job, reply).0, ..job }
}

/// On Windows, once the clipboard is open, it is emptied once and then given
/// the image, the file and the path, in this order, with nothing in between
/// that would lose one of them; the push succeeds after all three.
pub proof fn law_windows_push_sets_three_forms(job: PushView, dib: Seq<u8>, failed: nat)
    requires
        job.phase == (PushPhaseView::Opening { dib, failed }),
    ensures
        ({
            let opened = push_next(job, PushReplyView::Done);
            let emptied = push_next(push_after(job, PushReplyView::Done), PushReplyView::Done);
            let with_image = PushView { phase: emptied.0, ..job };
            let with_files = push_after(with_image, PushReplyView::Done);
            let with_text = push_after(with_files, PushReplyView::Done);
            &&& opened.1 == PushRequestView::Empty
            &&& emptied.1 == PushRequestView::SetImage(dib)
            &&& push_next(with_image, PushReplyView::Done).1 == PushRequestView::SetFiles(
                seq![job.text],
            )
            &&& push_next(with_files, PushReplyView::Done).1 == PushRequestView::SetText(job.text)
            &&& push_next(with_text, PushReplyView::Done).1 == PushRequestView::Finish(Ok(()))
        }),
{
}

/// Elsewhere the image, the file and the path are set in one write, and the
/// push succeeds after it.
pub proof fn law_other_push_sets_three_forms_at_once(job: PushView, image: ImageView)
    requires
        job.phase == (PushPhaseView::Connecting { image }),
    ensures
        push_next(job, PushReplyView::Done).1 == PushRequestView::SetAll(
            seq![
                ClipItemView::Image(image),
                ClipItemView::Files(seq![job.text]),
                ClipItemView::Text(job.text),
            ],
        ),
        push_next(push_after(job, PushReplyView::Done), PushReplyView::Done).1
            == PushRequestView::Finish(Ok(())),
{
}

/// A push succeeds only when the system has taken its last form: the text on
/// Windows, all forms together elsewhere. Any other answer leads on or fails.
pub proof fn law_push_succeeds_only_with_all_forms(job: PushView, reply: PushReplyView)
    requires
        push_answers(job.phase, reply),
        push_next(job, reply).1 == PushRequestView::Finish(Ok(())),
    ensures
        reply is Done,
        job.phase is SettingText || job.phase is SettingAll,
{
}

/// Which step each phase of a push can follow: the text form is set only
/// after the file form, that only after the image, and that only after the
/// clipboard was emptied; no form is set before an emptying.
pub proof fn law_push_steps_come_in_order(job: PushView, reply: PushReplyView)
    requires
        push_answers(job.phase, reply),
    ensures
        ({
            let after = push_next(job, reply).0;
            &&& after is Emptying ==> job.phase is Opening && reply is Done
            &&& after is SettingImage ==> job.phase is Emptying && reply is Done
            &&& after is SettingFiles ==> job.phase is SettingImage && reply is Done
            &&& after is SettingText ==> job.phase is SettingFiles && reply is Done
            &&& after is SettingAll ==> job.phase is Connecting && reply is Done
            &&& push_next(job, reply).1 is Empty <==> after is Emptying
            &&& push_next(job, reply).1 is SetAll <==> after is SettingAll
        }),
{
}

/// A request that fails ends the push with a failure; only a clipboard that
/// does not open on Windows is tried again.
pub proof fn law_failed_step_ends_the_push(job: PushView, error: Seq<char>)
    requires
        push_answers(job.phase, PushReplyView::Failed(error)),
        !(job.phase is Opening),
    ensures
        push_next(job, PushReplyView::Failed(error)).0 is Finished,
        push_next(job, PushReplyView::Failed(error)).1 matches PushRequestView::Finish(Err(_)),
{
}

/// A clipboard that stays closed is tried the set number of times, with a
/// rest after each attempt, and then given up with the latest error.
pub proof fn law_opening_is_tried_so_often(job: PushView, dib: Seq<u8>, failed: nat, error: Seq<char>)
    requires
        job.phase == (PushPhaseView::Opening { dib, failed }),
        failed < OPEN_ATTEMPTS,
    ensures
        ({
            let resting = push_after(job, PushReplyView::Failed(error));
            let then_asked = push_next(resting, PushReplyView::Done);
            &&& push_next(job, PushReplyView::Failed(error)).1 == PushRequestView::Rest(
                OPEN_RETRY_MILLIS,
            )
            &&& failed + 1 < OPEN_ATTEMPTS ==> then_asked == (
                PushPhaseView::Opening { dib, failed: failed + 1 },
                PushRequestView::Open,
            )
            &&& failed + 1 == OPEN_ATTEMPTS ==> then_asked == give_up(
                code_failure(
                    "failed to open clipboard after "@ + text::decimal_text(OPEN_ATTEMPTS as nat)
                        + " attempts"@,
                    error,
                ),
            )
        }),
{
}

/// A push that has taken `replies`, and all that it has asked for on the way.
pub open spec fn push_run(job: PushView, replies: Seq<PushReplyView>) -> (
    PushView,
    Seq<PushRequestView>,
)
    decreases replies.len(),
{
    if replies.len() == 0 {
        (job, Seq::empty())
    } else {
        let (before, asked) = push_run(job, replies.drop_last());
        (push_after(before, replies.last()), asked.push(push_next(before, replies.last()).1))
    }
}

/// Whether each of `replies` answers what the push waits for when it comes.
pub open spec fn push_answered(job: PushView, replies: Seq<PushReplyView>) -> bool
    decreases replies.len(),
{
    replies.len() == 0 || {
        &&& push_answered(job, replies.drop_last())
        &&& push_answers(push_run(job, replies.drop_last()).0.phase, replies.last())
    }
}

/// The requests that change what the clipboard holds, in order.
pub open spec fn changes(asked: Seq<PushRequestView>) -> Seq<PushRequestView>
    decreases asked.len(),
{
    if asked.len() == 0 {
        Seq::empty()
    } else {
        let front = changes(asked.drop_last());
        match asked.last() {
            PushRequestView::Empty
            | PushRequestView::SetImage(_)
            | PushRequestView::SetFiles(_)
            | PushRequestView::SetText(_)
            | PushRequestView::SetAll(_) => front.push(asked.last()),
            _ => front,
        }
    }
}

/// The four changes that make up a push on Windows.
pub open spec fn windows_changes(dib: Seq<u8>, text: Seq<char>) -> Seq<PushRequestView> {
    seq![
        PushRequestView::Empty,
        PushRequestView::SetImage(dib),
        PushRequestView::SetFiles(seq![text]),
        PushRequestView::SetText(text),
    ]
}

/// What has changed on the clipboard by the time a push that has read `bytes`
/// stands at `phase`, having asked last for `last`.
spec fn changed_so_far(
    job: PushView,
    bytes: Seq<u8>,
    phase: PushPhaseView,
    last: PushRequestView,
    changed: Seq<PushRequestView>,
) -> bool {
    let windows = job.platform == Platform::Windows;
    let dib = images::bitmap_of(bytes)->Ok_0.skip(BMP_FILE_HEADER_LEN as int);
    let image = images::clipboard_image(bytes)->Ok_0;
    let good = if windows {
        images::bitmap_of(bytes) is Ok
    } else {
        images::clipboard_image(bytes) is Ok
    };
    match phase {
        PushPhaseView::Reading => false,
        PushPhaseView::Opening { dib: d, .. } => windows && good && d == dib && changed.len() == 0,
        PushPhaseView::Resting { dib: d, .. } => windows && good && d == dib && changed.len() == 0,
        PushPhaseView::Emptying { dib: d } => windows && good && d == dib && changed
            == windows_changes(dib, job.text).take(1),
        PushPhaseView::SettingImage => windows && good && changed == windows_changes(
            dib,
            job.text,
        ).take(2),
        PushPhaseView::SettingFiles => windows && good && changed == windows_changes(
            dib,
            job.text,
        ).take(3),
        PushPhaseView::SettingText => windows && good && changed == windows_changes(dib, job.text),
        PushPhaseView::Connecting { image: i } => !windows && good && i == image && changed.len()
            == 0,
        PushPhaseView::SettingAll => !windows && good && changed == seq![
            PushRequestView::SetAll(all_forms(image, job.text)),
        ],
        PushPhaseView::Finished => last == PushRequestView::Finish(Ok(())) ==> good && changed == (
        if windows {
            windows_changes(dib, job.text)
        } else {
            seq![PushRequestView::SetAll(all_forms(image, job.text))]
        }),
    }
}

proof fn lemma_changed_so_far(job: PushView, replies: Seq<PushReplyView>)
    requires
        job.phase is Reading,
        replies.len() > 0,
        push_answered(job, replies),
    ensures
        ({
            let (after, asked) = push_run(job, replies);
            &&& after == (PushView { phase: after.phase, ..job })
            &&& asked.len() == replies.len()
            &&& replies[0] matches PushReplyView::Bytes(bytes) ==> changed_so_far(
                job,
                bytes,
                after.phase,
                asked.last(),
                changes(asked),
            )
            &&& !(replies[0] is Bytes) ==> after.phase is Finished && asked.last()
                != PushRequestView::Finish(Ok(()))
        }),
    decreases replies.len(),
{
    let front = replies.drop_last();
    let (before, asked_before) = push_run(job, front);
    let (after, asked) = push_run(job, replies);
    assert(asked.drop_last() =~= asked_before);
    reveal_with_fuel(changes, 2);
    if front.len() == 0 {
        assert(before == job);
    } else {
        lemma_changed_so_far(job, front);
        assert(front[0] == replies[0]);
        if let PushReplyView::Bytes(bytes) = replies[0] {
            let dib = images::bitmap_of(bytes)->Ok_0.skip(BMP_FILE_HEADER_LEN as int);
            let four = windows_changes(dib, job.text);
            assert(four.take(1) =~= Seq::empty().push(four[0]));
            assert(four.take(2) =~= four.take(1).push(four[1]));
            assert(four.take(3) =~= four.take(2).push(four[2]));
            assert(four =~= four.take(3).push(four[3]));
            assert(changes(asked_before).len() == 0 ==> changes(asked_before) =~= Seq::empty());
        }
    }
}

/// A push that succeeds, however long it had to wait for the clipboard, has
/// put all three forms of one screenshot there and done nothing else to it.
/// On Windows it has emptied the clipboard once, before the first form;
/// elsewhere it has made a single write.
pub proof fn law_push_puts_three_forms_at_once(
    path: PathView,
    text: Seq<char>,
    platform: Platform,
    replies: Seq<PushReplyView>,
)
    requires
        replies.len() > 0,
        push_answered(PushView { platform, path, text, phase: PushPhaseView::Reading }, replies),
        push_run(
            PushView { platform, path, text, phase: PushPhaseView::Reading },
            replies,
        ).1.last() == PushRequestView::Finish(Ok(())),
    ensures
        ({
            let job = PushView { platform, path, text, phase: PushPhaseView::Reading };
            let changed = changes(push_run(job, replies).1);
            &&& replies[0] matches PushReplyView::Bytes(bytes)
            &&& if platform == Platform::Windows {
                &&& images::bitmap_of(bytes) matches Ok(bmp)
                &&& changed == seq![
                    PushRequestView::Empty,
                    PushRequestView::SetImage(bmp.skip(BMP_FILE_HEADER_LEN as int)),
                    PushRequestView::SetFiles(seq![text]),
                    PushRequestView::SetText(text),
                ]
            } else {
                &&& images::clipboard_image(bytes) matches Ok(image)
                &&& changed == seq![
                    PushRequestView::SetAll(
                        seq![
                            ClipItemView::Image(image),
                            ClipItemView::Files(seq![text]),
                            ClipItemView::Text(text),
                        ],
                    ),
                ]
            }
        }),
{
    let job = PushView { platform, path, text, phase: PushPhaseView::Reading };
    lemma_changed_so_far(job, replies);
    let before = push_run(job, replies.drop_last()).0;
    assert(push_next(before, replies.last()).1 == push_run(job, replies).1.last());
}

/// A screenshot that can be read leads on to the clipboard, whatever it shows:
/// with all its pixels, or on Windows with all of the bitmap but its file
/// header of 14 bytes.
pub proof fn law_readable_screenshot_leads_to_the_clipboard(
    job: PushView,
    bytes: Seq<u8>,
    image: ImageView,
    bmp: Seq<u8>,
)
    requires
        job.phase is Reading,
    ensures
        job.platform != Platform::Windows && images::clipboard_image(bytes) == Ok::<
            ImageView,
            Seq<char>,
        >(image) ==> push_next(job, PushReplyView::Bytes(bytes)) == (
            PushPhaseView::Connecting { image },
            PushRequestView::Open,
        ),
        job.platform == Platform::Windows && images::bitmap_of(bytes) == Ok::<Seq<u8>, FaultView>(
            bmp,
        ) && bmp.len() > 14 ==> push_next(job, PushReplyView::Bytes(bytes)) == (
            PushPhaseView::Opening { dib: bmp.skip(14), failed: 0 },
            PushRequestView::Open,
        ),
{
}

/// A screenshot that cannot be read ends the push, and the failure says what
/// went wrong.
pub proof fn law_unreadable_screenshot_is_told(job: PushView, bytes: Seq<u8>, cause: Seq<char>)
    requires
        job.phase is Reading,
    ensures
        push_next(job, PushReplyView::Failed(cause)) == (
            PushPhaseView::Finished,
            PushRequestView::Finish(
                Err(
                    FailureView {
                        context: "failed to read "@ + path::shown(job.path),
                        cause: Some(cause),
                    },
                ),
            ),
        ),
        job.platform != Platform::Windows && images::clipboard_image(bytes) == Err::<
            ImageView,
            Seq<char>,
        >(cause) ==> push_next(job, PushReplyView::Bytes(bytes)) == (
            PushPhaseView::Finished,
            PushRequestView::Finish(
                Err(FailureView { context: "failed to decode PNG: "@ + cause, cause: None }),
            ),
        ),
        job.platform == Platform::Windows ==> {
            let step = push_next(job, PushReplyView::Bytes(bytes));
            &&& images::bitmap_of(bytes) matches Err(fault) ==> step == (
                PushPhaseView::Finished,
                PushRequestView::Finish(
                    Err(
                        match fault {
                            FaultView::Guess(c) => FailureView {
                                context: "failed to guess image format"@,
                                cause: Some(c),
                            },
                            FaultView::Decode(c) => FailureView {
                                context: "failed to decode PNG"@,
                                cause: Some(c),
                            },
                            FaultView::Encode(c) => FailureView {
                                context: "failed to encode BMP for clipboard"@,
                                cause: Some(c),
                            },
                        },
                    ),
                ),
            )
            &&& images::bitmap_of(bytes) matches Ok(bmp) ==> (bmp.len() <= 14 ==> step == (
                PushPhaseView::Finished,
                PushRequestView::Finish(
                    Err(
                        FailureView {
                            context: "encoded BMP is too small ("@ + text::decimal_text(bmp.len())
                                + " bytes)"@,
                            cause: None,
                        },
                    ),
                ),
            ))
        },
{
}

/// What is told when the clipboard refuses a step names the step and repeats
/// the system's words.
pub proof fn law_refused_step_is_named(job: PushView, error: Seq<char>)
    ensures
        ({
            let step = push_next(job, PushReplyView::Failed(error));
            let told = |context: Seq<char>|
                (
                    PushPhaseView::Finished,
                    PushRequestView::Finish(
                        Err::<(), FailureView>(FailureView { context, cause: None }),
                    ),
                );
            &&& job.phase is Emptying ==> step == told(
                "failed to empty clipboard"@ + " (code "@ + error + ")"@,
            )
            &&& job.phase is SettingImage ==> step == told(
                "failed to set CF_DIB"@ + " (code "@ + error + ")"@,
            )
            &&& job.phase is SettingFiles ==> step == told(
                "failed to set CF_HDROP"@ + " (code "@ + error + ")"@,
            )
            &&& job.phase is SettingText ==> step == told(
                "failed to set CF_UNICODETEXT"@ + " (code "@ + error + ")"@,
            )
            &&& job.phase is Connecting ==> step == told("failed to open clipboard: "@ + error)
            &&& job.phase is SettingAll ==> step == told("failed to set clipboard: "@ + error)
        }),
{
}

/// The answers of a clipboard that does not open, with an error for each
/// attempt, to a push that rests after each.
pub open spec fn closed_so_often(errors: Seq<Seq<char>>) -> Seq<PushReplyView>
    decreases errors.len(),
{
    if errors.len() == 0 {
        Seq::empty()
    } else {
        closed_so_often(errors.drop_last()).push(PushReplyView::Failed(errors.last())).push(
            PushReplyView::Done,
        )
    }
}

proof fn lemma_push_run_on(job: PushView, replies: Seq<PushReplyView>, reply: PushReplyView)
    ensures
        push_run(job, replies.push(reply)).0 == push_after(push_run(job, replies).0, reply),
        push_run(job, replies.push(reply)).1 == push_run(job, replies).1.push(
            push_next(push_run(job, replies).0, reply).1,
        ),
{
    assert(replies.push(reply).drop_last() =~= replies);
}

proof fn lemma_closed_so_often(
    job: PushView,
    bytes: Seq<u8>,
    bmp: Seq<u8>,
    errors: Seq<Seq<char>>,
)
    requires
        job.platform == Platform::Windows,
        job.phase is Reading,
        images::bitmap_of(bytes) == Ok::<Seq<u8>, FaultView>(bmp),
        bmp.len() > 14,
        errors.len() <= 20,
    ensures
        ({
            let (after, asked) = push_run(
                job,
                seq![PushReplyView::Bytes(bytes)] + closed_so_often(errors),
            );
            &&& after == (PushView { phase: after.phase, ..job })
            &&& asked.len() == 2 * errors.len() + 1
            &&& asked[0] == PushRequestView::Open
            &&& forall|i: int|
                0 <= i < errors.len() ==> #[trigger] asked[2 * i + 1] == PushRequestView::Rest(100)
            &&& errors.len() < 20 ==> {
                &&& after.phase == (PushPhaseView::Opening {
                    dib: bmp.skip(14),
                    failed: errors.len(),
                })
                &&& asked.last() == PushRequestView::Open
            }
            &&& errors.len() == 20 ==> {
                &&& after.phase is Finished
                &&& asked.last() == PushRequestView::Finish(
                    Err(
                        FailureView {
                            context: "failed to open clipboard after "@ + text::decimal_text(20)
                                + " attempts"@ + " (code "@ + errors.last() + ")"@,
                            cause: None,
                        },
                    ),
                )
            }
        }),
    decreases errors.len(),
{
    let first = seq![PushReplyView::Bytes(bytes)];
    if errors.len() == 0 {
        assert(first + closed_so_often(errors) =~= Seq::empty().push(
            PushReplyView::Bytes(bytes),
        ));
        lemma_push_run_on(job, Seq::empty(), PushReplyView::Bytes(bytes));
        assert(push_run(job, Seq::empty()) == (job, Seq::<PushRequestView>::empty()));
    } else {
        let front = errors.drop_last();
        let so_far = first + closed_so_often(front);
        lemma_closed_so_often(job, bytes, bmp, front);
        assert(first + closed_so_often(errors) =~= so_far.push(
            PushReplyView::Failed(errors.last()),
        ).push(PushReplyView::Done));
        lemma_push_run_on(job, so_far, PushReplyView::Failed(errors.last()));
        lemma_push_run_on(
            job,
            so_far.push(PushReplyView::Failed(errors.last())),
            PushReplyView::Done,
        );
        let asked = push_run(job, first + closed_so_often(errors)).1;
        let asked_before = push_run(job, so_far).1;
        assert forall|i: int| 0 <= i < errors.len() implies #[trigger] asked[2 * i + 1]
            == PushRequestView::Rest(100) by {
            if i < front.len() {
                assert(asked_before[2 * i + 1] == PushRequestView::Rest(100));
            }
        }
    }
}

/// A push of a readable screenshot succeeds if the system takes each step, and
/// on Windows also if the clipboard opens only after up to 19 vain attempts:
/// these are its requests, to the last one.
pub proof fn law_push_that_is_let_succeeds(
    path: PathView,
    text: Seq<char>,
    platform: Platform,
    bytes: Seq<u8>,
    image: ImageView,
    bmp: Seq<u8>,
    errors: Seq<Seq<char>>,
)
    ensures
        ({
            let job = PushView { platform, path, text, phase: PushPhaseView::Reading };
            &&& platform != Platform::Windows && images::clipboard_image(bytes) == Ok::<
                ImageView,
                Seq<char>,
            >(image) ==> push_run(
                job,
                seq![PushReplyView::Bytes(bytes), PushReplyView::Done, PushReplyView::Done],
            ).1 == seq![
                PushRequestView::Open,
                PushRequestView::SetAll(
                    seq![
                        ClipItemView::Image(image),
                        ClipItemView::Files(seq![text]),
                        ClipItemView::Text(text),
                    ],
                ),
                PushRequestView::Finish(Ok(())),
            ]
            &&& platform == Platform::Windows && images::bitmap_of(bytes) == Ok::<
                Seq<u8>,
                FaultView,
            >(bmp) && bmp.len() > 14 && errors.len() < 20 ==> {
                let waited = seq![PushReplyView::Bytes(bytes)] + closed_so_often(errors);
                push_run(
                    job,
                    waited.push(PushReplyView::Done).push(PushReplyView::Done).push(
                        PushReplyView::Done,
                    ).push(PushReplyView::Done).push(PushReplyView::Done),
                ).1 == push_run(job, waited).1 + seq![
                    PushRequestView::Empty,
                    PushRequestView::SetImage(bmp.skip(14)),
                    PushRequestView::SetFiles(seq![text]),
                    PushRequestView::SetText(text),
                    PushRequestView::Finish(Ok(())),
                ]
            }
        }),
{
    let job = PushView { platform, path, text, phase: PushPhaseView::Reading };
    let done = PushReplyView::Done;
    if platform != Platform::Windows {
        let a = Seq::empty().push(PushReplyView::Bytes(bytes));
        lemma_push_run_on(job, Seq::empty(), PushReplyView::Bytes(bytes));
        lemma_push_run_on(job, a, done);
        lemma_push_run_on(job, a.push(done), done);
        assert(push_run(job, Seq::empty()) == (job, Seq::<PushRequestView>::empty()));
        assert(a.push(done).push(done) =~= seq![PushReplyView::Bytes(bytes), done, done]);
    } else if images::bitmap_of(bytes) == Ok::<Seq<u8>, FaultView>(bmp) && bmp.len() > 14
        && errors.len() < 20 {
        let a = seq![PushReplyView::Bytes(bytes)] + closed_so_often(errors);
        lemma_closed_so_often(job, bytes, bmp, errors);
        lemma_push_run_on(job, a, done);
        lemma_push_run_on(job, a.push(done), done);
        lemma_push_run_on(job, a.push(done).push(done), done);
        lemma_push_run_on(job, a.push(done).push(done).push(done), done);
        lemma_push_run_on(job, a.push(done).push(done).push(done).push(done), done);
    }
}

/// A clipboard that does not open at 20 attempts is given up, with the latest
/// error; before each further attempt the push rests for 100 milliseconds.
pub proof fn law_clipboard_that_stays_closed_is_given_up(
    job: PushView,
    bytes: Seq<u8>,
    bmp: Seq<u8>,
    errors: Seq<Seq<char>>,
)
    requires
        job.platform == Platform::Windows,
        job.phase is Reading,
        images::bitmap_of(bytes) == Ok::<Seq<u8>, FaultView>(bmp),
        bmp.len() > 14,
        errors.len() <= 20,
    ensures
        ({
            let asked = push_run(
                job,
                seq![PushReplyView::Bytes(bytes)] + closed_so_often(errors),
            ).1;
            &&& asked.len() == 2 * errors.len() + 1
            &&& forall|i: int|
                0 <= i < errors.len() ==> #[trigger] asked[2 * i + 1] == PushRequestView::Rest(100)
            &&& errors.len() < 20 ==> asked.last() == PushRequestView::Open
            &&& errors.len() == 20 ==> asked.last() == PushRequestView::Finish(
                Err(
                    FailureView {
                        context: "failed to open clipboard after "@ + text::decimal_text(20)
                            + " attempts"@ + " (code "@ + errors.last() + ")"@,
                        cause: None,
                    },
                ),
            )
        }),
{
    lemma_closed_so_often(job, bytes, bmp, errors);
}

} // verus!
