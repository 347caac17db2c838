//! What adding files to a prompt promises: which may be sent, which are staged, and what goes out with them.
use crate::composer::attachments::{
    attachment_view, attachment_views, dropped_file_mention, is_image_attachment_path, is_staged,
    mentions_of, merged, pasted_image_name, pasted_images, pasted_paths, plan_upload,
    restore_composer_submission, split_clipboard, stage_attachment_paths, stage_daemon_attachment,
    stage_pasted_attachments, stage_stored, staged, staged_all, stored_views,
    submission_with_attachments, AttachmentView, ClipboardEntry, DirectoryUpload, PathKind,
    StageOutcome, StoredAttachment, StoredBlob, StoredView, UploadError, UploadLimits, UploadPlan,
    WalkStep,
};
use crate::session::{ComposerSubmission, MessageAttachment};
use crate::text::{ascii_lowered, decimal, decimal_tells_apart, joined, opt_view, trimmed};
use vstd::prelude::*;

verus! {

// ---------------------------------------------------------------------------
// Uploads
// ---------------------------------------------------------------------------
/// A file with a name is read where it is no larger than the limit, and a directory with a name is walked.
/// Links and nameless or other things are refused.
pub proof fn files_within_the_limit_are_sent(
    kind: PathKind,
    name: Option<String>,
    len: u64,
    limits: UploadLimits,
    r: Result<UploadPlan, UploadError>,
)
    requires
        call_ensures(plan_upload, (kind, &name, len, limits), r),
    ensures
        ({
            let named = name is Some && (name->0)@.len() > 0;
            &&& r == Ok::<UploadPlan, UploadError>(UploadPlan::ReadFile) <==> kind == PathKind::File
                && named && len <= limits.max_bytes
            &&& r == Ok::<UploadPlan, UploadError>(UploadPlan::WalkDirectory) <==> kind
                == PathKind::Directory && named
            &&& kind == PathKind::Symlink ==> r == Err::<UploadPlan, UploadError>(
                UploadError::Symlink,
            )
            &&& kind != PathKind::Symlink && !named ==> r == Err::<UploadPlan, UploadError>(
                UploadError::NoFileName,
            )
            &&& kind == PathKind::File && named && len > limits.max_bytes ==> r == Err::<
                UploadPlan,
                UploadError,
            >(UploadError::FileTooLarge)
            &&& kind == PathKind::Other && named ==> r == Err::<UploadPlan, UploadError>(
                UploadError::NotAFileOrDirectory,
            )
        }),
{
}

/// A directory takes files as long as neither their number nor their bytes are past the limits; the bytes of
/// each file that it takes are counted. Directories in it are walked, and links are passed over.
pub proof fn a_directory_counts_its_files(
    upload: &mut DirectoryUpload,
    kind: PathKind,
    len: u64,
    limits: UploadLimits,
    r: Result<WalkStep, UploadError>,
)
    requires
        call_ensures(DirectoryUpload::meet, (upload, kind, len, limits), r),
    ensures
        final(upload).entries == old(upload).entries,
        kind == PathKind::Directory ==> r == Ok::<WalkStep, UploadError>(WalkStep::Descend),
        kind == PathKind::Symlink || kind == PathKind::Other ==> r == Ok::<WalkStep, UploadError>(
            WalkStep::Skip,
        ),
        kind != PathKind::File ==> final(upload).total_bytes == old(upload).total_bytes,
        kind == PathKind::File ==> (r is Ok <==> old(upload).entries@.len() < limits.max_files && old(
            upload,
        ).total_bytes + len <= limits.max_bytes || old(upload).entries@.len() < limits.max_files
            && old(upload).total_bytes + len > u64::MAX && limits.max_bytes == u64::MAX),
        kind == PathKind::File && r is Ok ==> r->Ok_0 == WalkStep::Read,
        kind == PathKind::File && r is Ok && old(upload).total_bytes + len <= u64::MAX ==> final(upload).total_bytes == old(upload).total_bytes + len,
        kind == PathKind::File && old(upload).entries@.len() >= limits.max_files ==> r == Err::<
            WalkStep,
            UploadError,
        >(UploadError::TooManyFiles { max_files: limits.max_files }),
{
}

/// A file that a directory takes is put behind those that it has, under its own path.
pub proof fn a_directory_keeps_its_files_in_order(
    upload: &mut DirectoryUpload,
    relative_path: String,
    bytes: &Vec<u8>,
)
    requires
        call_ensures(DirectoryUpload::add, (upload, relative_path, bytes), ()),
    ensures
        final(upload).entries@.len() == old(upload).entries@.len() + 1,
        final(upload).entries@.last().relative_path@ == relative_path@,
        forall|k: int|
            0 <= k < old(upload).entries@.len() ==> #[trigger] final(upload).entries@[k] == old(
                upload,
            ).entries@[k],
{
    assert forall|k: int| 0 <= k < old(upload).entries@.len() implies #[trigger] final(upload).entries@[k] == old(upload).entries@[k] by {
        assert(final(upload).entries@.drop_last()[k] == old(upload).entries@[k]);
    }
}

/// A file is an image by its extension, whatever the case of its letters.
pub proof fn images_are_told_by_their_extension(
    extension: &str,
    r: bool,
    other: &str,
    again: bool,
    none: bool,
)
    requires
        call_ensures(is_image_attachment_path, (Some(extension),), r),
        ascii_lowered(other@) == ascii_lowered(extension@),
        call_ensures(is_image_attachment_path, (Some(other),), again),
        call_ensures(is_image_attachment_path, (None,), none),
    ensures
        r == again,
        !none,
        ascii_lowered(extension@) == "png"@ || ascii_lowered(extension@) == "jpg"@ || ascii_lowered(
            extension@,
        ) == "jpeg"@ || ascii_lowered(extension@) == "gif"@ || ascii_lowered(extension@) == "webp"@
            || ascii_lowered(extension@) == "svg"@ || ascii_lowered(extension@) == "bmp"@ ==> r,
        extension@.len() < 3 || extension@.len() > 4 ==> !r,
{
    reveal_strlit("png");
    reveal_strlit("jpg");
    reveal_strlit("jpeg");
    reveal_strlit("gif");
    reveal_strlit("webp");
    reveal_strlit("bmp");
    reveal_strlit("svg");
    reveal_strlit("tif");
    reveal_strlit("tiff");
    reveal_strlit("ico");
    reveal_strlit("pnm");
    reveal_strlit("pbm");
    reveal_strlit("pgm");
    reveal_strlit("ppm");
    assert(ascii_lowered(extension@).len() == extension@.len());
}

// ---------------------------------------------------------------------------
// Staging
// ---------------------------------------------------------------------------
/// Tells whether a staged file is the one that was stored: it is mentioned by its path, a directory with a slash
/// at the end.
pub open spec fn stands_for(a: MessageAttachment, s: StoredAttachment) -> bool {
    &&& a.path@ == s.path@
    &&& a.name@ == s.name@
    &&& a.is_dir == s.is_dir
    &&& a.is_image == s.is_image
    &&& a.blob_reference is Some
    &&& (a.blob_reference->0)@ == s.reference@
    &&& a.mention@ == (if s.is_dir && (s.path@.len() == 0 || s.path@.last() != '/') {
        s.path@.push('/')
    } else {
        s.path@
    })
}

/// Tells whether a file is staged already, by its path or by what it was stored as.
pub open spec fn is_there(list: Seq<MessageAttachment>, s: StoredAttachment) -> bool {
    exists|k: int|
        0 <= k < list.len() && ((#[trigger] list[k]).path@ == s.path@ || list[k].blob_reference is Some
            && (list[k].blob_reference->0)@ == s.reference@)
}

proof fn there_is_staged(list: Seq<MessageAttachment>, s: StoredAttachment)
    ensures
        is_there(list, s) <==> is_staged(attachment_views(list), s.path@, s.reference@),
{
    let v = attachment_views(list);
    if is_there(list, s) {
        let k = choose|k: int|
            0 <= k < list.len() && ((#[trigger] list[k]).path@ == s.path@
                || list[k].blob_reference is Some && (list[k].blob_reference->0)@ == s.reference@);
        assert(v[k] == attachment_view(list[k]));
    }
    if is_staged(v, s.path@, s.reference@) {
        let k = choose|k: int|
            0 <= k < v.len() && ((#[trigger] v[k]).path == s.path@ || v[k].blob_reference == Some(
                s.reference@,
            ));
        assert(v[k] == attachment_view(list[k]));
        assert(opt_view(list[k].blob_reference) == v[k].blob_reference);
    }
}

/// A file that is not staged yet is staged behind the others; one that is stays where it is.
pub proof fn a_stored_file_is_staged_once(
    list: &mut Vec<MessageAttachment>,
    stored: StoredAttachment,
    r: bool,
)
    requires
        call_ensures(stage_daemon_attachment, (list, stored), r),
    ensures
        r <==> !is_there(old(list)@, stored),
        final(list)@.len() == old(list)@.len() + (if r {
            1int
        } else {
            0
        }),
        r ==> stands_for(final(list)@.last(), stored),
        forall|k: int|
            0 <= k < old(list)@.len() ==> attachment_view(#[trigger] final(list)@[k])
                == attachment_view(old(list)@[k]),
{
    let before = attachment_views(old(list)@);
    let after = attachment_views(final(list)@);
    there_is_staged(old(list)@, stored);
    assert(after.len() == final(list)@.len() && before.len() == old(list)@.len());
    assert forall|k: int| 0 <= k < old(list)@.len() implies attachment_view(
        #[trigger] final(list)@[k],
    ) == attachment_view(old(list)@[k]) by {
        assert(after[k] == before[k]);
    }
    if r {
        assert(after.last() == attachment_view(final(list)@.last()));
        assert(opt_view(final(list)@.last().blob_reference) == Some(stored.reference@));
    }
}

proof fn staging_holds(list: Seq<AttachmentView>, stored: Seq<StoredView>, k: int)
    requires
        0 <= k < stored.len(),
    ensures
        is_staged(staged_all(list, stored), stored[k].path, stored[k].reference),
        staged_all(list, stored).len() >= list.len(),
        staged_all(list, stored).take(list.len() as int) == list,
    decreases stored.len(),
{
    let head = stored.drop_last();
    let before = staged_all(list, head);
    let after = staged_all(list, stored);
    if stored.len() > 1 {
        let j = if k < head.len() {
            k
        } else {
            0
        };
        staging_holds(list, head, j);
    } else {
        assert(before.take(list.len() as int) =~= list);
    }
    assert(after.take(list.len() as int) =~= before.take(list.len() as int));
    if k < head.len() {
        assert(head[k] == stored[k]);
        let i = choose|i: int|
            0 <= i < before.len() && ((#[trigger] before[i]).path == stored[k].path
                || before[i].blob_reference == Some(stored[k].reference));
        assert(after[i] == before[i]);
    } else if !is_staged(before, stored[k].path, stored[k].reference) {
        assert(after[before.len() as int].path == stored[k].path);
    }
}

/// Every file that was stored is staged afterwards, behind those that were staged before.
pub proof fn every_stored_file_is_staged(
    list: &mut Vec<MessageAttachment>,
    stored: Vec<StoredAttachment>,
    r: bool,
    k: int,
)
    requires
        call_ensures(stage_stored, (list, stored), r),
        0 <= k < stored@.len(),
    ensures
        is_there(final(list)@, stored@[k]),
        final(list)@.len() >= old(list)@.len(),
        forall|j: int|
            0 <= j < old(list)@.len() ==> attachment_view(#[trigger] final(list)@[j])
                == attachment_view(old(list)@[j]),
{
    let before = attachment_views(old(list)@);
    let after = attachment_views(final(list)@);
    assert(after.len() == final(list)@.len() && before.len() == old(list)@.len());
    staging_holds(before, stored_views(stored@), k);
    assert(stored_views(stored@)[k] == stored@[k]@);
    there_is_staged(final(list)@, stored@[k]);
    assert forall|j: int| 0 <= j < old(list)@.len() implies attachment_view(
        #[trigger] final(list)@[j],
    ) == attachment_view(old(list)@[j]) by {
        assert(after.take(before.len() as int)[j] == after[j]);
    }
}

/// Files that come for another draft, or that could not be stored, change nothing; in the latter case the user is
/// told.
pub proof fn late_files_are_dropped(
    list: &mut Vec<MessageAttachment>,
    same_draft: bool,
    answer: Result<Vec<StoredAttachment>, String>,
    r: StageOutcome,
    other: &mut Vec<MessageAttachment>,
    pasted: Result<Vec<StoredBlob>, String>,
    s: StageOutcome,
)
    requires
        call_ensures(stage_attachment_paths, (list, same_draft, answer), r),
        call_ensures(stage_pasted_attachments, (other, same_draft, pasted), s),
    ensures
        !same_draft || answer is Err ==> attachment_views(final(list)@) == attachment_views(
            old(list)@,
        ),
        !same_draft || pasted is Err ==> attachment_views(final(other)@) == attachment_views(
            old(other)@,
        ),
        r is Tell <==> answer is Err,
        s is Tell <==> pasted is Err,
        !same_draft && answer is Ok ==> r is Nothing,
        !same_draft && pasted is Ok ==> s is Nothing,
        same_draft && answer is Ok ==> forall|k: int|
            0 <= k < (answer->Ok_0)@.len() ==> is_there(
                final(list)@,
                #[trigger] (answer->Ok_0)@[k],
            ),
{
    if same_draft && answer is Ok {
        let stored = (answer->Ok_0)@;
        assert forall|k: int| 0 <= k < stored.len() implies is_there(
            final(list)@,
            #[trigger] stored[k],
        ) by {
            staging_holds(attachment_views(old(list)@), stored_views(stored), k);
            assert(stored_views(stored)[k] == stored[k]@);
            there_is_staged(final(list)@, stored[k]);
        }
    }
}

/// The only pasted image has a plain name, and two of several never have the same one.
pub proof fn pasted_images_are_told_apart(
    a: u64,
    b: u64,
    count: u64,
    extension: Option<&str>,
    first: String,
    second: String,
)
    requires
        a < count,
        b < count,
        call_ensures(pasted_image_name, (extension, a, count), first),
        call_ensures(pasted_image_name, (extension, b, count), second),
    ensures
        a != b ==> first@ != second@,
        count == 1 ==> first@ == "image."@ + (match extension {
            Some(e) => e@,
            None => "png"@,
        }),
        count > 1 ==> first@ == "image-"@ + decimal((a + 1) as nat) + "."@ + (match extension {
            Some(e) => e@,
            None => "png"@,
        }),
{
    let ext = match extension {
        Some(e) => e@,
        None => "png"@,
    };
    if a != b && first@ == second@ {
        let x = decimal((a + 1) as nat);
        let y = decimal((b + 1) as nat);
        let head = "image-"@;
        let tail = "."@ + ext;
        assert(first@ =~= head + x + tail);
        assert(second@ =~= head + y + tail);
        assert(x.len() == y.len());
        assert(x =~= (head + x + tail).subrange(head.len() as int, (head.len() + x.len()) as int));
        assert(y =~= (head + y + tail).subrange(head.len() as int, (head.len() + y.len()) as int));
        decimal_tells_apart((a + 1) as nat, (b + 1) as nat);
    }
}

/// A file that was dropped is mentioned by its path below the root, where it is below it, else by its whole path;
/// a directory with a slash at the end.
pub proof fn dropped_files_are_mentioned_by_their_path(
    relative: Option<&str>,
    path: &str,
    is_dir: bool,
    r: String,
)
    requires
        call_ensures(dropped_file_mention, (relative, path, is_dir), r),
    ensures
        ({
            let base = if relative is Some && (relative->0)@.len() > 0 {
                (relative->0)@
            } else {
                path@
            };
            &&& !is_dir ==> r@ == base
            &&& is_dir ==> r@.len() > 0 && r@.last() == '/'
            &&& is_dir ==> r@ == base || r@ == base.push('/')
        }),
{
}

proof fn clipboard_holds(entries: Seq<ClipboardEntry>, e: int)
    requires
        0 <= e < entries.len(),
    ensures
        entries[e] matches ClipboardEntry::Paths(paths) ==> forall|k: int|
            0 <= k < paths@.len() ==> pasted_paths(entries).contains(#[trigger] paths@[k]),
        entries[e] matches ClipboardEntry::Image { bytes } ==> bytes@.len() > 0 ==> pasted_images(
            entries,
        ).contains(bytes),
    decreases entries.len(),
{
    let head = entries.drop_last();
    let paths_before = pasted_paths(head);
    let images_before = pasted_images(head);
    let paths_all = pasted_paths(entries);
    let images_all = pasted_images(entries);
    if e < head.len() {
        assert(head[e] == entries[e]);
        clipboard_holds(head, e);
        if let ClipboardEntry::Paths(paths) = entries[e] {
            assert forall|k: int| 0 <= k < paths@.len() implies paths_all.contains(
                #[trigger] paths@[k],
            ) by {
                let j = paths_before.index_of(paths@[k]);
                assert(paths_all[j] == paths@[k]);
            }
        }
        if let ClipboardEntry::Image { bytes } = entries[e] {
            if bytes@.len() > 0 {
                let j = images_before.index_of(bytes);
                assert(images_all[j] == bytes);
            }
        }
    } else {
        if let ClipboardEntry::Paths(paths) = entries[e] {
            assert forall|k: int| 0 <= k < paths@.len() implies paths_all.contains(
                #[trigger] paths@[k],
            ) by {
                assert(paths_all[paths_before.len() + k] == paths@[k]);
            }
        }
        if let ClipboardEntry::Image { bytes } = entries[e] {
            if bytes@.len() > 0 {
                assert(images_all[images_before.len() as int] == bytes);
            }
        }
    }
}

/// Every path and every image with anything in it that is on the clipboard is pasted.
pub proof fn everything_on_the_clipboard_is_pasted(
    entries: Vec<ClipboardEntry>,
    r: (Vec<String>, Vec<Vec<u8>>),
    e: int,
)
    requires
        call_ensures(split_clipboard, (entries,), r),
        0 <= e < entries@.len(),
    ensures
        entries@[e] matches ClipboardEntry::Paths(paths) ==> forall|k: int|
            0 <= k < paths@.len() ==> r.0@.contains(#[trigger] paths@[k]),
        entries@[e] matches ClipboardEntry::Image { bytes } ==> bytes@.len() > 0 ==> r.1@.contains(
            bytes,
        ),
{
    clipboard_holds(entries@, e);
}

// ---------------------------------------------------------------------------
// Sending
// ---------------------------------------------------------------------------
proof fn joined_holds(list: Seq<Seq<char>>, sep: Seq<char>, k: int)
    requires
        0 <= k < list.len(),
    ensures
        exists|a: Seq<char>, b: Seq<char>| joined(list, sep) == #[trigger] (a + list[k] + b),
    decreases list.len(),
{
    let none = Seq::<char>::empty();
    if list.len() == 1 {
        assert(joined(list, sep) =~= none + list[k] + none);
    } else if k == list.len() - 1 {
        let a = joined(list.drop_last(), sep) + sep;
        assert(joined(list, sep) =~= a + list[k] + none);
    } else {
        joined_holds(list.drop_last(), sep, k);
        let (a, b) = choose|a: Seq<char>, b: Seq<char>|
            joined(list.drop_last(), sep) == #[trigger] (a + list.drop_last()[k] + b);
        let c = b + sep + list.last();
        assert(joined(list, sep) =~= a + list[k] + c);
    }
}

/// What is sent begins with what the user wrote, without the white space around it, and mentions every staged
/// file; all of them go with it. The transcript shows what the user wrote.
pub proof fn what_is_sent_mentions_every_file(
    prompt: &str,
    files: &mut Vec<MessageAttachment>,
    r: Option<ComposerSubmission>,
)
    requires
        call_ensures(submission_with_attachments, (prompt, files), r),
    ensures
        r is None <==> trimmed(prompt@).len() == 0 && old(files)@.len() == 0,
        final(files)@.len() == 0,
        r is Some ==> {
            &&& (r->0).attachments@ == old(files)@
            &&& (r->0).prompt@.len() >= trimmed(prompt@).len()
            &&& (r->0).prompt@.take(trimmed(prompt@).len() as int) == trimmed(prompt@)
            &&& old(files)@.len() == 0 ==> (r->0).prompt@ == trimmed(prompt@) && (
            r->0).display_content is None
            &&& old(files)@.len() > 0 ==> (r->0).display_content is Some && (
            (r->0).display_content->0)@ == trimmed(prompt@)
            &&& forall|k: int|
                0 <= k < old(files)@.len() ==> exists|a: Seq<char>, b: Seq<char>|
                    (r->0).prompt@ == #[trigger] (a + ("@"@ + (#[trigger] old(
                        files,
                    )@[k]).mention@) + b)
        },
{
    if r is Some {
        let s = (r->0)@;
        let text = trimmed(prompt@);
        let mentions = mentions_of(old(files)@);
        let marked = mentions.map_values(|m: Seq<char>| "@"@ + m);
        assert(s.display_content == opt_view((r->0).display_content));
        assert(merged(prompt@, mentions) == Some(s.prompt));
        if text.len() == 0 {
            assert(s.prompt.take(0) =~= text);
        } else {
            assert(s.prompt.take(text.len() as int) =~= text);
        }
        assert forall|k: int| 0 <= k < old(files)@.len() implies exists|a: Seq<char>, b: Seq<char>|
            (r->0).prompt@ == #[trigger] (a + ("@"@ + (#[trigger] old(files)@[k]).mention@) + b) by {
            joined_holds(marked, " "@, k);
            assert(marked[k] == "@"@ + old(files)@[k].mention@);
            let (a, b) = choose|a: Seq<char>, b: Seq<char>|
                joined(marked, " "@) == #[trigger] (a + marked[k] + b);
            if text.len() == 0 {
                assert(s.prompt == a + marked[k] + b);
            } else {
                let c = text + " "@ + a;
                assert(s.prompt =~= c + marked[k] + b);
            }
        }
    }
}

/// What goes back into the composer is what the user wrote, with the same files.
pub proof fn restoring_undoes_sending(
    prompt: &str,
    files: &mut Vec<MessageAttachment>,
    sent: Option<ComposerSubmission>,
    later: &mut Vec<MessageAttachment>,
    text: String,
)
    requires
        call_ensures(submission_with_attachments, (prompt, files), sent),
        sent is Some,
        call_ensures(restore_composer_submission, (sent->0, later), text),
    ensures
        text@ == trimmed(prompt@),
        final(later)@ == old(files)@,
{
    what_is_sent_mentions_every_file(prompt, files, sent);
}

} // verus!
