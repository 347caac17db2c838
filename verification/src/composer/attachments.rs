//! Files that the user adds to a prompt: which may be sent, how they are sent, and which are staged.
use crate::label::{Label, LabelView};
use crate::session::{ComposerSubmission, MessageAttachment, SubmissionView};
use crate::text::{
    concat, concat3, decimal, decimal_text, joined, join, opt_view, same_text,
    str_view, string_of, to_ascii_lower, trim, trimmed, views,
};
use base64::Engine as _;
use vstd::prelude::*;

verus! {

// ---------------------------------------------------------------------------
// Uploads
// ---------------------------------------------------------------------------
/// The character for a value below 64 in base64.
pub open spec fn base64_char(n: int) -> char {
    if n < 26 {
        (65 + n) as char
    } else if n < 52 {
        (97 + (n - 26)) as char
    } else if n < 62 {
        (48 + (n - 52)) as char
    } else if n == 62 {
        '+'
    } else {
        '/'
    }
}

/// Bytes in base64 with padding: four characters for each three bytes.
pub open spec fn base64_text(bytes: Seq<u8>) -> Seq<char>
    decreases bytes.len(),
{
    if bytes.len() == 0 {
        Seq::empty()
    } else {
        let a = bytes[0] as int;
        let b = if bytes.len() > 1 {
            bytes[1] as int
        } else {
            0
        };
        let c = if bytes.len() > 2 {
            bytes[2] as int
        } else {
            0
        };
        let group = seq![
            base64_char(a / 4),
            base64_char(a % 4 * 16 + b / 16),
            if bytes.len() > 1 {
                base64_char(b % 16 * 4 + c / 64)
            } else {
                '='
            },
            if bytes.len() > 2 {
                base64_char(c % 64)
            } else {
                '='
            },
        ];
        if bytes.len() > 3 {
            group + base64_text(bytes.skip(3))
        } else {
            group
        }
    }
}

/// `Engine::encode` of the crate `base64` with its engine `STANDARD`: the bytes in the standard alphabet
/// with padding. The crate asks for a buffer of the whole text, so the text has to fit into memory.
#[verifier::external_body]
fn encode_base64(bytes: &[u8]) -> (r: String)
    requires
        (bytes@.len() + 2) / 3 * 4 <= isize::MAX,
    ensures
        r@ == base64_text(bytes@),
{
    base64::engine::general_purpose::STANDARD.encode(bytes)
}

/// A file of a directory that is sent to the daemon.
#[derive(Debug)]
pub struct AttachmentUploadEntry {
    pub relative_path: String,
    pub data_base64: String,
}

/// What is sent to the daemon.
#[derive(Debug)]
pub enum AttachmentUpload {
    File { data_base64: String },
    Directory { entries: Vec<AttachmentUploadEntry> },
}

/// What stands under a path.
#[derive(Clone, Copy, Debug, PartialEq, Eq, Structural)]
pub enum PathKind {
    Symlink,
    File,
    Directory,
    Other,
}

/// How much may be sent.
#[derive(Clone, Copy, Debug, PartialEq, Eq, Structural)]
pub struct UploadLimits {
    pub max_bytes: u64,
    pub max_files: usize,
}

/// Why something is not sent.
#[derive(Clone, Copy, Debug, PartialEq, Eq, Structural)]
pub enum UploadError {
    Symlink,
    NoFileName,
    FileTooLarge,
    NotAFileOrDirectory,
    TooManyFiles { max_files: usize },
    DirectoryTooLarge,
}

/// What is done with a path that the user added.
#[derive(Clone, Copy, Debug, PartialEq, Eq, Structural)]
pub enum UploadPlan {
    /// Its bytes are read and sent.
    ReadFile,
    /// The files below it are read and sent.
    WalkDirectory,
}

/// What is done with a path that the user added, or why nothing is.
pub open spec fn upload_plan(
    kind: PathKind,
    name: Option<Seq<char>>,
    len: u64,
    limits: UploadLimits,
) -> Result<UploadPlan, UploadError> {
    if kind == PathKind::Symlink {
        Err(UploadError::Symlink)
    } else if name is None || name->0.len() == 0 {
        Err(UploadError::NoFileName)
    } else {
        match kind {
            PathKind::File => if len > limits.max_bytes {
                Err(UploadError::FileTooLarge)
            } else {
                Ok(UploadPlan::ReadFile)
            },
            PathKind::Directory => Ok(UploadPlan::WalkDirectory),
            _ => Err(UploadError::NotAFileOrDirectory),
        }
    }
}

/// What is done with a path that the user added. `name` is the path's last part, `len` the number of
/// bytes under it.
pub fn plan_upload(
    kind: PathKind,
    name: &Option<String>,
    len: u64,
    limits: UploadLimits,
) -> (r: Result<UploadPlan, UploadError>)
    ensures
        r == upload_plan(kind, opt_view(*name), len, limits),
{
    let named = match name {
        Some(text) => !text.as_str().is_empty(),
        None => false,
    };
    match kind {
        PathKind::Symlink => Err(UploadError::Symlink),
        _ => if !named {
            Err(UploadError::NoFileName)
        } else {
            match kind {
                PathKind::File => if len > limits.max_bytes {
                    Err(UploadError::FileTooLarge)
                } else {
                    Ok(UploadPlan::ReadFile)
                },
                PathKind::Directory => Ok(UploadPlan::WalkDirectory),
                _ => Err(UploadError::NotAFileOrDirectory),
            }
        },
    }
}

/// The upload of a file.
pub fn file_upload(bytes: &Vec<u8>) -> (r: AttachmentUpload)
    requires
        (bytes@.len() + 2) / 3 * 4 <= isize::MAX,
    ensures
        r is File,
        r->data_base64@ == base64_text(bytes@),
{
    AttachmentUpload::File { data_base64: encode_base64(bytes.as_slice()) }
}

/// What is done with a path that is met below a directory.
#[derive(Clone, Copy, Debug, PartialEq, Eq, Structural)]
pub enum WalkStep {
    Skip,
    Descend,
    /// Its bytes are read and added.
    Read,
}

/// A directory on its way to the daemon.
#[derive(Debug)]
pub struct DirectoryUpload {
    pub entries: Vec<AttachmentUploadEntry>,
    pub total_bytes: u64,
}

/// A number of bytes with some more, or the largest number.
pub open spec fn counted(total: u64, len: u64) -> u64 {
    if total + len > u64::MAX {
        u64::MAX
    } else {
        (total + len) as u64
    }
}

/// What is done with a path that is met below a directory, and how many bytes there are with it.
pub open spec fn walk_step(
    count: nat,
    total: u64,
    kind: PathKind,
    len: u64,
    limits: UploadLimits,
) -> Result<(WalkStep, u64), UploadError> {
    match kind {
        PathKind::Symlink => Ok((WalkStep::Skip, total)),
        PathKind::Other => Ok((WalkStep::Skip, total)),
        PathKind::Directory => Ok((WalkStep::Descend, total)),
        PathKind::File => {
            let all = counted(total, len);
            if count >= limits.max_files {
                Err(UploadError::TooManyFiles { max_files: limits.max_files })
            } else if all > limits.max_bytes {
                Err(UploadError::DirectoryTooLarge)
            } else {
                Ok((WalkStep::Read, all))
            }
        },
    }
}

impl DirectoryUpload {
    /// A directory of which nothing has been read.
    pub fn new() -> (r: Self)
        ensures
            r.entries@.len() == 0,
            r.total_bytes == 0,
    {
        DirectoryUpload { entries: Vec::new(), total_bytes: 0 }
    }

    /// Says what is done with a path that is met below the directory, and counts its bytes.
    pub fn meet(&mut self, kind: PathKind, len: u64, limits: UploadLimits) -> (r: Result<
        WalkStep,
        UploadError,
    >)
        ensures
            final(self).entries == old(self).entries,
            match walk_step(
                old(self).entries@.len(),
                old(self).total_bytes,
                kind,
                len,
                limits,
            ) {
                Ok((step, total)) => r == Ok::<WalkStep, UploadError>(step)
                    && final(self).total_bytes == total,
                Err(e) => r == Err::<WalkStep, UploadError>(e) && final(self).total_bytes == (
                if e is TooManyFiles {
                    old(self).total_bytes
                } else {
                    counted(old(self).total_bytes, len)
                }),
            },
    {
        match kind {
            PathKind::Symlink => Ok(WalkStep::Skip),
            PathKind::Other => Ok(WalkStep::Skip),
            PathKind::Directory => Ok(WalkStep::Descend),
            PathKind::File => {
                if self.entries.len() >= limits.max_files {
                    return Err(UploadError::TooManyFiles { max_files: limits.max_files });
                }
                self.total_bytes = self.total_bytes.saturating_add(len);
                if self.total_bytes > limits.max_bytes {
                    Err(UploadError::DirectoryTooLarge)
                } else {
                    Ok(WalkStep::Read)
                }
            },
        }
    }

    /// Adds a file that was read.
    pub fn add(&mut self, relative_path: String, bytes: &Vec<u8>)
        requires
            (bytes@.len() + 2) / 3 * 4 <= isize::MAX,
        ensures
            final(self).total_bytes == old(self).total_bytes,
            final(self).entries@.len() == old(self).entries@.len() + 1,
            final(self).entries@.drop_last() == old(self).entries@,
            final(self).entries@.last().relative_path == relative_path,
            final(self).entries@.last().data_base64@ == base64_text(bytes@),
    {
        self.entries.push(
            AttachmentUploadEntry { relative_path, data_base64: encode_base64(bytes.as_slice()) },
        );
        assert(self.entries@.drop_last() =~= old(self).entries@);
    }

    /// The upload of the directory.
    pub fn finish(self) -> (r: AttachmentUpload)
        ensures
            r is Directory,
            r->entries == self.entries,
    {
        AttachmentUpload::Directory { entries: self.entries }
    }
}

/// What the user is told of something that is not sent.
pub open spec fn upload_error_text(e: UploadError, path: Seq<char>) -> Seq<char> {
    match e {
        UploadError::Symlink => "symbolic-link attachments are not supported: "@ + path,
        UploadError::NoFileName => "attachment has no file name: "@ + path,
        UploadError::FileTooLarge => "attachment is larger than 32 MB: "@ + path,
        UploadError::NotAFileOrDirectory => "attachment is not a file or directory: "@ + path,
        UploadError::TooManyFiles { max_files } => "attachment directory contains more than "@
            + decimal(max_files as nat) + " files"@,
        UploadError::DirectoryTooLarge => "attachment directory is larger than 32 MB"@,
    }
}

impl UploadError {
    /// What the user is told of it.
    pub fn message(self, path: &str) -> (r: String)
        ensures
            r@ == upload_error_text(self, path@),
    {
        match self {
            UploadError::Symlink => concat("symbolic-link attachments are not supported: ", path),
            UploadError::NoFileName => concat("attachment has no file name: ", path),
            UploadError::FileTooLarge => concat("attachment is larger than 32 MB: ", path),
            UploadError::NotAFileOrDirectory => concat(
                "attachment is not a file or directory: ",
                path,
            ),
            UploadError::TooManyFiles { max_files } => concat3(
                "attachment directory contains more than ",
                decimal_text(max_files as u64).as_str(),
                " files",
            ),
            UploadError::DirectoryTooLarge => "attachment directory is larger than 32 MB".to_string(),
        }
    }
}

/// The endings of the names of images.
pub open spec fn names_image(extension: Seq<char>) -> bool {
    let e = extension;
    e == "png"@ || e == "jpg"@ || e == "jpeg"@ || e == "gif"@ || e == "webp"@ || e == "bmp"@ || e
        == "svg"@ || e == "tif"@ || e == "tiff"@ || e == "ico"@ || e == "pnm"@ || e == "pbm"@ || e
        == "pgm"@ || e == "ppm"@
}

/// Tells whether a file is an image, by the ending of its name.
pub fn is_image_attachment_path(extension: Option<&str>) -> (r: bool)
    ensures
        r == (extension is Some && names_image(crate::text::ascii_lowered(extension->0@))),
{
    match extension {
        Some(text) => {
            let lower = to_ascii_lower(text);
            let e = lower.as_str();
            same_text(e, "png") || same_text(e, "jpg") || same_text(e, "jpeg") || same_text(e, "gif")
                || same_text(e, "webp") || same_text(e, "bmp") || same_text(e, "svg") || same_text(
                e,
                "tif",
            ) || same_text(e, "tiff") || same_text(e, "ico") || same_text(e, "pnm") || same_text(
                e,
                "pbm",
            ) || same_text(e, "pgm") || same_text(e, "ppm")
        },
        None => false,
    }
}

// ---------------------------------------------------------------------------
// Staged files
// ---------------------------------------------------------------------------
/// A path as a prompt mentions it: a directory ends in a slash.
pub open spec fn mention_text(path: Seq<char>, is_dir: bool) -> Seq<char> {
    if is_dir && !(path.len() > 0 && path.last() == '/') {
        path.push('/')
    } else {
        path
    }
}

fn mention_of(path: &str, is_dir: bool) -> (r: String)
    ensures
        r@ == mention_text(path@, is_dir),
{
    let chars = crate::text::chars_of(path);
    let n: usize = chars.len();
    let mut r = string_of(chars.as_slice());
    if is_dir && !(n > 0 && chars[n - 1] == '/') {
        r.push('/');
    }
    r
}

/// The mention of a file that was dropped: its path below the project's root, where it is below it and
/// not the root itself, else its whole path.
pub open spec fn drop_mention(
    relative: Option<Seq<char>>,
    path: Seq<char>,
    is_dir: bool,
) -> Seq<char> {
    if relative is Some && relative->0.len() > 0 {
        mention_text(relative->0, is_dir)
    } else {
        mention_text(path, is_dir)
    }
}

/// The mention of a file that was dropped. `relative` is its path below the project's root, where it is
/// below it.
pub fn dropped_file_mention(relative: Option<&str>, path: &str, is_dir: bool) -> (r: String)
    ensures
        r@ == drop_mention(str_view(relative), path@, is_dir),
{
    match relative {
        Some(text) => if text.is_empty() {
            mention_of(path, is_dir)
        } else {
            mention_of(text, is_dir)
        },
        None => mention_of(path, is_dir),
    }
}

/// A file that the daemon stored.
#[derive(Debug)]
pub struct StoredAttachment {
    pub path: String,
    pub name: String,
    pub is_dir: bool,
    pub is_image: bool,
    pub reference: String,
}

/// The contents of a file that the daemon stored.
pub ghost struct StoredView {
    pub path: Seq<char>,
    pub name: Seq<char>,
    pub is_dir: bool,
    pub is_image: bool,
    pub reference: Seq<char>,
}

impl View for StoredAttachment {
    type V = StoredView;

    open spec fn view(&self) -> StoredView {
        StoredView {
            path: self.path@,
            name: self.name@,
            is_dir: self.is_dir,
            is_image: self.is_image,
            reference: self.reference@,
        }
    }
}

/// The contents of some files that the daemon stored.
pub open spec fn stored_views(list: Seq<StoredAttachment>) -> Seq<StoredView> {
    Seq::new(list.len(), |i: int| list[i]@)
}

/// The contents of an attachment.
pub ghost struct AttachmentView {
    pub path: Seq<char>,
    pub mention: Seq<char>,
    pub name: Seq<char>,
    pub is_dir: bool,
    pub is_image: bool,
    pub blob_reference: Option<Seq<char>>,
}

/// The contents of an attachment.
pub open spec fn attachment_view(a: MessageAttachment) -> AttachmentView {
    AttachmentView {
        path: a.path@,
        mention: a.mention@,
        name: a.name@,
        is_dir: a.is_dir,
        is_image: a.is_image,
        blob_reference: opt_view(a.blob_reference),
    }
}

/// The contents of a list of attachments.
pub open spec fn attachment_views(list: Seq<MessageAttachment>) -> Seq<AttachmentView> {
    Seq::new(list.len(), |i: int| attachment_view(list[i]))
}

/// Tells whether a file is staged already.
pub open spec fn is_staged(
    list: Seq<AttachmentView>,
    path: Seq<char>,
    reference: Seq<char>,
) -> bool {
    exists|i: int|
        0 <= i < list.len() && ((#[trigger] list[i]).path == path || list[i].blob_reference == Some(
            reference,
        ))
}

/// The staged files with one more, unless it is staged already.
pub open spec fn staged(list: Seq<AttachmentView>, s: StoredView) -> Seq<AttachmentView> {
    if is_staged(list, s.path, s.reference) {
        list
    } else {
        list.push(
            AttachmentView {
                path: s.path,
                mention: mention_text(s.path, s.is_dir),
                name: s.name,
                is_dir: s.is_dir,
                is_image: s.is_image,
                blob_reference: Some(s.reference),
            },
        )
    }
}

/// Stages a file that the daemon stored, unless it is staged already, and tells whether it did.
pub fn stage_daemon_attachment(list: &mut Vec<MessageAttachment>, stored: StoredAttachment) -> (r:
    bool)
    ensures
        r == !is_staged(attachment_views(old(list)@), stored.path@, stored.reference@),
        attachment_views(final(list)@) == staged(attachment_views(old(list)@), stored@),
{
    let ghost all = attachment_views(list@);
    for i in 0..list.len()
        invariant
            all == attachment_views(list@),
            list@ == old(list)@,
            forall|k: int|
                0 <= k < i ==> !((#[trigger] all[k]).path == stored.path@ || all[k].blob_reference
                    == Some(stored.reference@)),
    {
        assert(all[i as int] == attachment_view(list@[i as int]));
        let same = same_text(list[i].path.as_str(), stored.path.as_str())
            || crate::text::is_some_text(&list[i].blob_reference, stored.reference.as_str());
        if same {
            return false;
        }
    }
    let mention = mention_of(stored.path.as_str(), stored.is_dir);
    let ghost new = stored@;
    list.push(
        MessageAttachment {
            path: stored.path,
            mention,
            name: stored.name,
            is_dir: stored.is_dir,
            is_image: stored.is_image,
            blob_reference: Some(stored.reference),
        },
    );
    assert(attachment_views(list@) =~= staged(all, new));
    true
}

/// The staged files with some more, one behind the other.
pub open spec fn staged_all(list: Seq<AttachmentView>, stored: Seq<StoredView>) -> Seq<
    AttachmentView,
>
    decreases stored.len(),
{
    if stored.len() == 0 {
        list
    } else {
        staged(staged_all(list, stored.drop_last()), stored.last())
    }
}

proof fn staging_only_adds(list: Seq<AttachmentView>, stored: Seq<StoredView>)
    ensures
        staged_all(list, stored).len() >= list.len(),
        forall|i: int| 0 <= i < list.len() ==> staged_all(list, stored)[i] == list[i],
    decreases stored.len(),
{
    if stored.len() > 0 {
        staging_only_adds(list, stored.drop_last());
    }
}

/// Stages files that the daemon stored, and tells whether any of them was not staged already.
pub fn stage_stored(list: &mut Vec<MessageAttachment>, stored: Vec<StoredAttachment>) -> (r: bool)
    ensures
        attachment_views(final(list)@) == staged_all(
            attachment_views(old(list)@),
            stored_views(stored@),
        ),
        r == (attachment_views(final(list)@) != attachment_views(old(list)@)),
{
    let ghost files = stored@;
    let ghost all = stored_views(files);
    let ghost start = attachment_views(list@);
    let mut changed = false;
    assert(all.take(0) =~= Seq::empty());
    for next in it: stored.into_iter()
        invariant
            it.seq() == files,
            all == stored_views(files),
            attachment_views(list@) == staged_all(start, all.take(it.index())),
            changed == (attachment_views(list@).len() > start.len()),
            attachment_views(list@).len() >= start.len(),
    {
        assert(all.take(it.index() + 1).drop_last() =~= all.take(it.index()));
        assert(all.take(it.index() + 1).last() == next@);
        if stage_daemon_attachment(list, next) {
            changed = true;
        }
    }
    proof {
        assert(all.take(all.len() as int) =~= all);
        staging_only_adds(start, all);
        if attachment_views(list@).len() == start.len() {
            assert(attachment_views(list@) =~= start);
        }
    }
    changed
}

/// What is done once the daemon has answered about files that are to be staged.
#[derive(Debug)]
pub enum StageOutcome {
    /// Nothing: another draft is shown by now, or every file was staged already.
    Nothing,
    /// The draft is saved.
    SaveDraft,
    /// The user is told why no file was staged.
    Tell(Label),
}

/// Tells whether an answer of the daemon was dealt with as it should be: the files that it stored are
/// staged, where the draft that they are for is still shown, and else dropped. `told` is what the user is
/// told where it did not store them.
pub open spec fn answer_staged(
    before: Seq<AttachmentView>,
    after: Seq<AttachmentView>,
    same_draft: bool,
    answer: Result<Seq<StoredView>, LabelView>,
    r: StageOutcome,
) -> bool {
    match answer {
        Ok(stored) => if same_draft {
            &&& after == staged_all(before, stored)
            &&& r !is Tell
            &&& r is SaveDraft <==> after != before
        } else {
            r is Nothing && after == before
        },
        Err(told) => r is Tell && r->Tell_0@ == told && after == before,
    }
}

fn stage_answer(list: &mut Vec<MessageAttachment>, same_draft: bool, stored: Vec<StoredAttachment>) -> (r:
    StageOutcome)
    ensures
        answer_staged(
            attachment_views(old(list)@),
            attachment_views(final(list)@),
            same_draft,
            Ok(stored_views(stored@)),
            r,
        ),
{
    if same_draft && stage_stored(list, stored) {
        StageOutcome::SaveDraft
    } else {
        StageOutcome::Nothing
    }
}

/// The result of storing files: their contents, or what the user is told.
pub open spec fn paths_answer(answer: Result<Vec<StoredAttachment>, String>) -> Result<
    Seq<StoredView>,
    LabelView,
> {
    match answer {
        Ok(stored) => Ok(stored_views(stored@)),
        Err(error) => Err(LabelView::Plain(error@)),
    }
}

/// Stages the files at some paths, once the daemon has stored them or has not. `same_draft` is set where
/// the draft that they are for is still shown.
pub fn stage_attachment_paths(
    list: &mut Vec<MessageAttachment>,
    same_draft: bool,
    answer: Result<Vec<StoredAttachment>, String>,
) -> (r: StageOutcome)
    ensures
        answer_staged(
            attachment_views(old(list)@),
            attachment_views(final(list)@),
            same_draft,
            paths_answer(answer),
            r,
        ),
{
    match answer {
        Ok(stored) => stage_answer(list, same_draft, stored),
        Err(error) => StageOutcome::Tell(Label::Plain(error)),
    }
}

/// The name of an image from the clipboard: numbered, where there are several.
pub open spec fn pasted_name(extension: Option<Seq<char>>, index: nat, count: nat) -> Seq<char> {
    let ext = match extension {
        Some(e) => e,
        None => "png"@,
    };
    if count == 1 {
        "image."@ + ext
    } else {
        "image-"@ + decimal(index + 1) + "."@ + ext
    }
}

/// The name of an image from the clipboard.
pub fn pasted_image_name(extension: Option<&str>, index: u64, count: u64) -> (r: String)
    requires
        index < count,
    ensures
        r@ == pasted_name(
            str_view(extension),
            index as nat,
            count as nat,
        ),
{
    let ext = match extension {
        Some(e) => e,
        None => "png",
    };
    if count == 1 {
        concat("image.", ext)
    } else {
        let numbered = concat3("image-", decimal_text(index + 1).as_str(), ".");
        concat(numbered.as_str(), ext)
    }
}

/// An image from the clipboard that the daemon stored.
#[derive(Debug)]
pub struct StoredBlob {
    pub path: String,
    /// The extension of the path, where it has one.
    pub extension: Option<String>,
    pub reference: String,
}

/// The contents of the files that images from the clipboard are staged as.
pub open spec fn pasted_views(blobs: Seq<StoredBlob>) -> Seq<StoredView> {
    Seq::new(
        blobs.len(),
        |i: int|
            StoredView {
                path: blobs[i].path@,
                name: pasted_name(opt_view(blobs[i].extension), i as nat, blobs.len()),
                is_dir: false,
                is_image: true,
                reference: blobs[i].reference@,
            },
    )
}

/// The result of storing images from the clipboard: what they are staged as, or what the user is told.
pub open spec fn pasted_answer(answer: Result<Vec<StoredBlob>, String>) -> Result<
    Seq<StoredView>,
    LabelView,
> {
    match answer {
        Ok(blobs) => Ok(pasted_views(blobs@)),
        Err(error) => Err(
            LabelView::MessageWith {
                key: "errors.store_pasted_image"@,
                name: "error"@,
                value: error@,
            },
        ),
    }
}

fn name_blobs(blobs: Vec<StoredBlob>) -> (r: Vec<StoredAttachment>)
    ensures
        stored_views(r@) == pasted_views(blobs@),
{
    let count = blobs.len();
    let ghost all = blobs@;
    let mut r: Vec<StoredAttachment> = Vec::new();
    for blob in it: blobs.into_iter()
        invariant
            it.seq() == all,
            count == all.len(),
            r@.len() == it.index(),
            forall|k: int| 0 <= k < it.index() ==> (#[trigger] r@[k])@ == pasted_views(all)[k],
    {
        let name = match &blob.extension {
            Some(e) => pasted_image_name(Some(e.as_str()), r.len() as u64, count as u64),
            None => pasted_image_name(None, r.len() as u64, count as u64),
        };
        r.push(
            StoredAttachment {
                path: blob.path,
                name,
                is_dir: false,
                is_image: true,
                reference: blob.reference,
            },
        );
    }
    assert(stored_views(r@) =~= pasted_views(all));
    r
}

/// Stages images from the clipboard, once the daemon has stored them or has not. `same_draft` is set where
/// the draft that they are for is still shown.
pub fn stage_pasted_attachments(
    list: &mut Vec<MessageAttachment>,
    same_draft: bool,
    answer: Result<Vec<StoredBlob>, String>,
) -> (r: StageOutcome)
    ensures
        answer_staged(
            attachment_views(old(list)@),
            attachment_views(final(list)@),
            same_draft,
            pasted_answer(answer),
            r,
        ),
{
    match answer {
        Ok(blobs) => stage_answer(list, same_draft, name_blobs(blobs)),
        Err(error) => StageOutcome::Tell(
            Label::MessageWith { key: "errors.store_pasted_image", name: "error", value: error },
        ),
    }
}

/// What is on the clipboard.
#[derive(Debug)]
pub enum ClipboardEntry {
    Text,
    Image { bytes: Vec<u8> },
    Paths(Vec<String>),
}

/// The paths on the clipboard.
pub open spec fn pasted_paths(entries: Seq<ClipboardEntry>) -> Seq<String>
    decreases entries.len(),
{
    if entries.len() == 0 {
        Seq::empty()
    } else {
        let before = pasted_paths(entries.drop_last());
        match entries.last() {
            ClipboardEntry::Paths(paths) => before + paths@,
            _ => before,
        }
    }
}

/// The images on the clipboard that are not empty.
pub open spec fn pasted_images(entries: Seq<ClipboardEntry>) -> Seq<Vec<u8>>
    decreases entries.len(),
{
    if entries.len() == 0 {
        Seq::empty()
    } else {
        let before = pasted_images(entries.drop_last());
        match entries.last() {
            ClipboardEntry::Image { bytes } => if bytes@.len() > 0 {
                before.push(bytes)
            } else {
                before
            },
            _ => before,
        }
    }
}

/// Sorts out what is on the clipboard: the paths, and the images that are not empty.
pub fn split_clipboard(entries: Vec<ClipboardEntry>) -> (r: (Vec<String>, Vec<Vec<u8>>))
    ensures
        r.0@ == pasted_paths(entries@),
        r.1@ == pasted_images(entries@),
{
    let ghost all = entries@;
    let mut paths: Vec<String> = Vec::new();
    let mut images: Vec<Vec<u8>> = Vec::new();
    assert(all.take(0) =~= Seq::empty());
    for next in it: entries.into_iter()
        invariant
            it.seq() == all,
            paths@ == pasted_paths(all.take(it.index())),
            images@ == pasted_images(all.take(it.index())),
    {
        assert(all.take(it.index() + 1).drop_last() =~= all.take(it.index()));
        match next {
            ClipboardEntry::Text => {},
            ClipboardEntry::Image { bytes } => {
                if bytes.len() > 0 {
                    images.push(bytes);
                }
            },
            ClipboardEntry::Paths(more) => {
                let mut more = more;
                paths.append(&mut more);
            },
        }
    }
    assert(all.take(all.len() as int) =~= all);
    (paths, images)
}

// ---------------------------------------------------------------------------
// Submissions
// ---------------------------------------------------------------------------
/// The mentions behind a prompt.
pub open spec fn mentions_text(mentions: Seq<Seq<char>>) -> Seq<char> {
    joined(mentions.map_values(|m: Seq<char>| "@"@ + m), " "@)
}

/// What is sent of a prompt and the files that go with it: the text without the white space around it,
/// then a mention of each file. `None` where there is neither.
pub open spec fn merged(prompt: Seq<char>, mentions: Seq<Seq<char>>) -> Option<Seq<char>> {
    let text = trimmed(prompt);
    if text.len() == 0 && mentions.len() == 0 {
        None
    } else if mentions.len() == 0 {
        Some(text)
    } else if text.len() == 0 {
        Some(mentions_text(mentions))
    } else {
        Some(text + " "@ + mentions_text(mentions))
    }
}

/// What is sent of a prompt and the files that go with it.
pub fn merged_submission(prompt: &str, mentions: &Vec<String>) -> (r: Option<String>)
    ensures
        opt_view(r) == merged(prompt@, views(mentions@)),
{
    let mut marked: Vec<String> = Vec::new();
    for i in 0..mentions.len()
        invariant
            marked@.len() == i,
            forall|k: int| 0 <= k < i ==> (#[trigger] marked@[k])@ == "@"@ + mentions@[k]@,
    {
        marked.push(concat("@", mentions[i].as_str()));
    }
    assert(views(marked@) =~= views(mentions@).map_values(|m: Seq<char>| "@"@ + m));
    let text = trim(prompt);
    let list = join(marked.as_slice(), " ");
    let bare = text.as_str().is_empty();
    if mentions.len() == 0 {
        if bare {
            None
        } else {
            Some(text)
        }
    } else if bare {
        Some(list)
    } else {
        Some(concat3(text.as_str(), " ", list.as_str()))
    }
}

/// The mentions of a list of attachments.
pub open spec fn mentions_of(list: Seq<MessageAttachment>) -> Seq<Seq<char>> {
    Seq::new(list.len(), |i: int| list[i].mention@)
}

fn list_mentions(list: &Vec<MessageAttachment>) -> (r: Vec<String>)
    ensures
        views(r@) == mentions_of(list@),
{
    let mut r: Vec<String> = Vec::new();
    for i in 0..list.len()
        invariant
            r@.len() == i,
            forall|k: int| 0 <= k < i ==> (#[trigger] r@[k])@ == list@[k].mention@,
    {
        r.push(list[i].mention.clone());
    }
    assert(views(r@) =~= mentions_of(list@));
    r
}

/// What the user sends, of the text and the staged files: the transcript shows the text alone, where
/// there are files.
pub open spec fn submission(prompt: Seq<char>, files: Seq<MessageAttachment>) -> Option<
    SubmissionView,
> {
    match merged(prompt, mentions_of(files)) {
        Some(text) => Some(
            SubmissionView {
                prompt: text,
                display_content: if files.len() > 0 {
                    Some(trimmed(prompt))
                } else {
                    None
                },
                attachments: files,
            },
        ),
        None => None,
    }
}

/// The contents of an optional submission.
pub open spec fn opt_submission(s: Option<ComposerSubmission>) -> Option<SubmissionView> {
    match s {
        Some(v) => Some(v@),
        None => None,
    }
}

/// Takes the text and the staged files to be sent. The files are no longer staged.
pub fn submission_with_attachments(prompt: &str, files: &mut Vec<MessageAttachment>) -> (r: Option<
    ComposerSubmission,
>)
    ensures
        opt_submission(r) == submission(prompt@, old(files)@),
        final(files)@.len() == 0,
{
    let mut attachments: Vec<MessageAttachment> = Vec::new();
    std::mem::swap(&mut attachments, files);
    let mentions = list_mentions(&attachments);
    let text = match merged_submission(prompt, &mentions) {
        Some(text) => text,
        None => return None,
    };
    let display_content = if attachments.len() > 0 {
        Some(trim(prompt))
    } else {
        None
    };
    Some(ComposerSubmission { prompt: text, display_content, attachments })
}

/// What the composer's field holds of a submission that goes back into it.
pub open spec fn restored_text(s: SubmissionView) -> Seq<char> {
    crate::session::visible_text(s.prompt, s.display_content)
}

/// Puts a submission back into the composer: its files are staged again, and the field holds what is
/// returned.
pub fn restore_composer_submission(
    submission: ComposerSubmission,
    files: &mut Vec<MessageAttachment>,
) -> (r: String)
    ensures
        r@ == restored_text(submission@),
        final(files)@ == submission@.attachments,
{
    *files = submission.attachments;
    match submission.display_content {
        Some(text) => text,
        None => submission.prompt,
    }
}

// ---------------------------------------------------------------------------
// Laws
// ---------------------------------------------------------------------------
/// There is nothing to send where there is neither text nor a file, and only there.
pub proof fn something_is_sent(prompt: Seq<char>, files: Seq<MessageAttachment>)
    ensures
        submission(prompt, files) is None <==> trimmed(prompt).len() == 0 && files.len() == 0,
{
}

/// Putting a submission back into the composer and sending it again sends the same.
pub proof fn sending_again_sends_the_same(prompt: Seq<char>, files: Seq<MessageAttachment>)
    requires
        submission(prompt, files) is Some,
    ensures
        submission(
            restored_text(submission(prompt, files)->0),
            submission(prompt, files)->0.attachments,
        ) == submission(prompt, files),
{
    crate::text::trimming_again_changes_nothing(prompt);
}

/// A file is staged once: staging it again changes nothing.
pub proof fn files_are_staged_once(list: Seq<AttachmentView>, s: StoredView)
    ensures
        staged(staged(list, s), s) == staged(list, s),
{
    let once = staged(list, s);
    if !is_staged(list, s.path, s.reference) {
        assert(once[once.len() - 1].path == s.path);
    }
}

/// Of a directory no more files are read than may be, and no more bytes.
pub proof fn directory_stays_within_limits(
    count: nat,
    total: u64,
    kind: PathKind,
    len: u64,
    limits: UploadLimits,
)
    requires
        count <= limits.max_files,
        total <= limits.max_bytes < u64::MAX,
    ensures
        match walk_step(count, total, kind, len, limits) {
            Ok((step, after)) => after <= limits.max_bytes && (step == WalkStep::Read ==> count + 1
                <= limits.max_files && after == total + len) && (step != WalkStep::Read ==> after
                == total),
            Err(_) => kind == PathKind::File,
        },
{
}

/// The base64 form has four characters for each three bytes, the last ones filled up.
pub proof fn base64_length(bytes: Seq<u8>)
    ensures
        base64_text(bytes).len() == (bytes.len() + 2) / 3 * 4,
    decreases bytes.len(),
{
    if bytes.len() > 3 {
        base64_length(bytes.skip(3));
    }
}

} // verus!
