//! What an agent gets of a submission: the text, the images, and where the files came from.
use crate::session::{ComposerSubmission, MessageAttachment, SubmissionView};
use crate::text::{
    chars_of, has_prefix, opt_view, same_text, stands_at, starts_with, string_of_range,
};
use vstd::prelude::*;

verus! {

/// An image that the agent's provider gets.
#[derive(Debug, PartialEq, Eq)]
pub enum PromptImageRef {
    /// One that the daemon stored.
    Blob { reference: String },
}

/// Where an attachment came from, as far as an agent may know.
#[derive(Debug, PartialEq, Eq)]
pub struct PromptAttachmentSource {
    pub reference: Option<String>,
    pub mention: String,
    pub name: String,
    pub is_dir: bool,
    pub is_image: bool,
    pub mime: Option<String>,
}

/// The contents of where an attachment came from.
pub ghost struct SourceView {
    pub reference: Option<Seq<char>>,
    pub mention: Seq<char>,
    pub name: Seq<char>,
    pub is_dir: bool,
    pub is_image: bool,
    pub mime: Option<Seq<char>>,
}

impl View for PromptAttachmentSource {
    type V = SourceView;

    open spec fn view(&self) -> SourceView {
        SourceView {
            reference: opt_view(self.reference),
            mention: self.mention@,
            name: self.name@,
            is_dir: self.is_dir,
            is_image: self.is_image,
            mime: opt_view(self.mime),
        }
    }
}

/// What an agent gets.
#[derive(Debug)]
pub struct PromptInput {
    pub text: String,
    pub display_text: Option<String>,
    pub attachments: Vec<PromptImageRef>,
    pub sources: Vec<PromptAttachmentSource>,
}

// ---------------------------------------------------------------------------
// References
// ---------------------------------------------------------------------------
/// Tells whether a reference is to an image that the daemon stored.
pub open spec fn is_blob(reference: Seq<char>) -> bool {
    has_prefix(reference, "wakuwaku-blob:"@)
}

/// Tells whether a reference is to something that the daemon stored, and to nothing on the user's
/// machine.
pub open spec fn is_stored(reference: Seq<char>) -> bool {
    is_blob(reference) || has_prefix(reference, "wakuwaku-attachment:"@)
}

impl PromptImageRef {
    /// The image under a reference, where the daemon stored it.
    pub fn from_stored_reference(reference: &str) -> (r: Option<Self>)
        ensures
            match r {
                Some(PromptImageRef::Blob { reference: text }) => is_blob(reference@) && text@
                    == reference@,
                None => !is_blob(reference@),
            },
    {
        if starts_with(reference, "wakuwaku-blob:") {
            Some(PromptImageRef::Blob { reference: reference.to_string() })
        } else {
            None
        }
    }
}

/// The images that the provider gets: those that the daemon stored.
pub open spec fn image_refs(list: Seq<MessageAttachment>) -> Seq<Seq<char>>
    decreases list.len(),
{
    if list.len() == 0 {
        Seq::empty()
    } else {
        let before = image_refs(list.drop_last());
        let a = list.last();
        if a.is_image && a.blob_reference is Some && is_blob(a.blob_reference->0@) {
            before.push(a.blob_reference->0@)
        } else {
            before
        }
    }
}

/// The references of a list of images.
pub open spec fn ref_views(list: Seq<PromptImageRef>) -> Seq<Seq<char>> {
    Seq::new(list.len(), |i: int| list[i]->reference@)
}

fn collect_images(list: &Vec<MessageAttachment>) -> (r: Vec<PromptImageRef>)
    ensures
        ref_views(r@) == image_refs(list@),
{
    let mut r: Vec<PromptImageRef> = Vec::new();
    assert(ref_views(r@) =~= image_refs(list@.take(0)));
    for i in 0..list.len()
        invariant
            ref_views(r@) == image_refs(list@.take(i as int)),
    {
        let ghost before = r@;
        assert(list@.take(i as int + 1).drop_last() =~= list@.take(i as int));
        if list[i].is_image {
            if let Some(reference) = &list[i].blob_reference {
                if let Some(image) = PromptImageRef::from_stored_reference(reference.as_str()) {
                    r.push(image);
                    assert(ref_views(r@) =~= ref_views(before).push(reference@));
                }
            }
        }
    }
    assert(list@.take(list@.len() as int) =~= list@);
    r
}

// ---------------------------------------------------------------------------
// Kinds of images
// ---------------------------------------------------------------------------
/// Tells whether a name ends in `.png`.
pub open spec fn is_png(name: Seq<char>) -> bool {
    stands_at(name, ".png"@, name.len() - ".png"@.len())
}

/// Tells whether a kind may be that of an attachment: what is no image has none, and an image whose name ends
/// in `.png` is `image/png`. The kind of other images is left open.
pub open spec fn mime_fits(a: MessageAttachment, mime: Option<Seq<char>>) -> bool {
    &&& !a.is_image ==> mime is None
    &&& a.is_image && is_png(a.name@) ==> mime == Some("image/png"@)
}

fn mime_for_name(name: &str) -> (r: Option<String>)
    ensures
        is_png(name@) ==> opt_view(r) == Some("image/png"@),
{
    let chars = chars_of(name);
    let end = chars_of(".png");
    if chars.len() < end.len() {
        return None;
    }
    let from: usize = chars.len() - end.len();
    let tail = string_of_range(chars.as_slice(), from, chars.len());
    assert(tail@ == name@.subrange(from as int, from + ".png"@.len()));
    if same_text(tail.as_str(), ".png") {
        Some("image/png".to_string())
    } else {
        None
    }
}

// ---------------------------------------------------------------------------
// Sources
// ---------------------------------------------------------------------------
/// Where an attachment of a kind came from: a reference only to what the daemon stored, and never a path on
/// the user's machine.
pub open spec fn source_of(a: MessageAttachment, mime: Option<Seq<char>>) -> SourceView {
    SourceView {
        reference: if a.blob_reference is Some && is_stored(a.blob_reference->0@) {
            Some(a.blob_reference->0@)
        } else {
            None
        },
        mention: a.mention@,
        name: a.name@,
        is_dir: a.is_dir,
        is_image: a.is_image,
        mime,
    }
}

/// Tells whether something says where an attachment came from.
pub open spec fn is_source(a: MessageAttachment, source: SourceView) -> bool {
    source == source_of(a, source.mime) && mime_fits(a, source.mime)
}

impl PromptAttachmentSource {
    /// Where an attachment came from.
    pub fn from_named_attachment(a: &MessageAttachment) -> (r: Self)
        ensures
            is_source(*a, r@),
    {
        let reference = match &a.blob_reference {
            Some(text) => {
                if starts_with(text.as_str(), "wakuwaku-blob:") || starts_with(
                    text.as_str(),
                    "wakuwaku-attachment:",
                ) {
                    Some(text.clone())
                } else {
                    None
                }
            },
            None => None,
        };
        let mime = if a.is_image {
            mime_for_name(a.name.as_str())
        } else {
            None
        };
        PromptAttachmentSource {
            reference,
            mention: a.mention.clone(),
            name: a.name.clone(),
            is_dir: a.is_dir,
            is_image: a.is_image,
            mime,
        }
    }
}

/// The contents of where some attachments came from.
pub open spec fn source_views(list: Seq<PromptAttachmentSource>) -> Seq<SourceView> {
    Seq::new(list.len(), |i: int| list[i]@)
}

/// Tells whether a list says, in their order, where each of some attachments came from.
pub open spec fn are_sources(list: Seq<MessageAttachment>, sources: Seq<SourceView>) -> bool {
    &&& sources.len() == list.len()
    &&& forall|i: int| 0 <= i < list.len() ==> is_source(list[i], #[trigger] sources[i])
}

fn collect_sources(list: &Vec<MessageAttachment>) -> (r: Vec<PromptAttachmentSource>)
    ensures
        are_sources(list@, source_views(r@)),
{
    let mut r: Vec<PromptAttachmentSource> = Vec::new();
    for i in 0..list.len()
        invariant
            r@.len() == i,
            forall|k: int| 0 <= k < i ==> is_source(list@[k], (#[trigger] r@[k])@),
    {
        r.push(PromptAttachmentSource::from_named_attachment(&list[i]));
    }
    assert forall|k: int| 0 <= k < list@.len() implies is_source(
        list@[k],
        #[trigger] source_views(r@)[k],
    ) by {
        assert(is_source(list@[k], r@[k]@));
    }
    r
}

// ---------------------------------------------------------------------------
// The whole
// ---------------------------------------------------------------------------
/// The contents of what an agent gets.
pub ghost struct PromptInputView {
    pub text: Seq<char>,
    pub display_text: Option<Seq<char>>,
    pub attachments: Seq<Seq<char>>,
    pub sources: Seq<SourceView>,
}

impl View for PromptInput {
    type V = PromptInputView;

    open spec fn view(&self) -> PromptInputView {
        PromptInputView {
            text: self.text@,
            display_text: opt_view(self.display_text),
            attachments: ref_views(self.attachments@),
            sources: source_views(self.sources@),
        }
    }
}

/// Tells whether something is what an agent gets of a submission whose text was made into another one: the
/// transcript keeps what the user typed.
pub open spec fn is_prompt_input(s: SubmissionView, text: Seq<char>, input: PromptInputView) -> bool {
    &&& input.text == text
    &&& input.display_text == (if s.display_content is Some {
        s.display_content
    } else if text != s.prompt {
        Some(s.prompt)
    } else {
        None
    })
    &&& input.attachments == image_refs(s.attachments)
    &&& are_sources(s.attachments, input.sources)
}

/// What an agent gets of a submission.
pub fn prompt_input_from_submission(submission: &ComposerSubmission) -> (r: PromptInput)
    ensures
        is_prompt_input(submission@, submission@.prompt, r@),
{
    prompt_input_from_submission_with_text(submission, submission.prompt.clone())
}

/// What an agent gets of a submission whose text was made into another one.
pub fn prompt_input_from_submission_with_text(
    submission: &ComposerSubmission,
    text: String,
) -> (r: PromptInput)
    ensures
        is_prompt_input(submission@, text@, r@),
{
    let attachments = collect_images(&submission.attachments);
    let sources = collect_sources(&submission.attachments);
    let display_text = match &submission.display_content {
        Some(shown) => Some(shown.clone()),
        None => if same_text(text.as_str(), submission.prompt.as_str()) {
            None
        } else {
            Some(submission.prompt.clone())
        },
    };
    PromptInput { text, display_text, attachments, sources }
}

// ---------------------------------------------------------------------------
// Laws
// ---------------------------------------------------------------------------
/// Whatever an attachment refers to, an agent learns of no reference but one to something that the
/// daemon stored.
pub proof fn only_stored_references_go_out(s: SubmissionView, text: Seq<char>, input: PromptInputView)
    requires
        is_prompt_input(s, text, input),
    ensures
        forall|i: int| 0 <= i < input.attachments.len() ==> is_blob(#[trigger] input.attachments[i]),
        forall|i: int|
            0 <= i < input.sources.len() ==> ((#[trigger] input.sources[i]).reference is Some
                ==> is_stored(input.sources[i].reference->0)),
{
    images_are_blobs(s.attachments);
    assert forall|i: int| 0 <= i < input.sources.len() implies ((
    #[trigger] input.sources[i]).reference is Some ==> is_stored(
        input.sources[i].reference->0,
    )) by {
        assert(is_source(s.attachments[i], input.sources[i]));
    }
}

proof fn images_are_blobs(list: Seq<MessageAttachment>)
    ensures
        forall|i: int| 0 <= i < image_refs(list).len() ==> is_blob(#[trigger] image_refs(list)[i]),
    decreases list.len(),
{
    if list.len() > 0 {
        let before = image_refs(list.drop_last());
        images_are_blobs(list.drop_last());
        assert forall|i: int| 0 <= i < image_refs(list).len() implies is_blob(
            #[trigger] image_refs(list)[i],
        ) by {
            if i < before.len() {
                assert(is_blob(before[i]));
            }
        }
    }
}

/// There is one source for each attachment, in the same order.
pub proof fn every_attachment_has_a_source(s: SubmissionView, text: Seq<char>, input: PromptInputView)
    requires
        is_prompt_input(s, text, input),
    ensures
        input.sources.len() == s.attachments.len(),
        forall|i: int|
            0 <= i < s.attachments.len() ==> (#[trigger] input.sources[i]).mention
                == s.attachments[i].mention@,
{
    assert forall|i: int| 0 <= i < s.attachments.len() implies (#[trigger] input.sources[i]).mention
        == s.attachments[i].mention@ by {
        assert(is_source(s.attachments[i], input.sources[i]));
    }
}

} // verus!
