use vstd::prelude::*;

use crate::decimal::{format_i64, text_of_int};
use crate::text::concat_str;

verus! {

/// The stored name of a thread attachment: the thread id, a `-`, the upload time in
/// milliseconds, a `.`, then the extension.
pub fn thread_attachment_file_name(ref_id: &str, uploaded_at_millis: i64, extension: &str) -> (r:
    String)
    ensures
        r@ == ref_id@ + "-"@ + text_of_int(uploaded_at_millis as int) + "."@ + extension@,
{
    let millis = format_i64(uploaded_at_millis);
    let a = concat_str(ref_id, "-");
    let b = concat_str(a.as_str(), millis.as_str());
    let c = concat_str(b.as_str(), ".");
    concat_str(c.as_str(), extension)
}

/// The stored name of a picture: its name, a `.`, then its extension.
pub fn picture_file_name(filename: &str, extension: &str) -> (r: String)
    ensures
        r@ == filename@ + "."@ + extension@,
{
    let a = concat_str(filename, ".");
    concat_str(a.as_str(), extension)
}

/// The name of an object in storage: its directory, a `/`, then its file name.
pub fn storage_key(path: &str, file_name: &str) -> (r: String)
    ensures
        r@ == path@ + "/"@ + file_name@,
{
    let a = concat_str(path, "/");
    concat_str(a.as_str(), file_name)
}

/// The stored record of a file attachment, as far as uploads read and write it.
#[derive(Clone, Debug)]
pub struct StoredFile {
    pub filename: String,
    pub mime_type: String,
    pub extension: String,
    pub kind: String,
}

impl View for StoredFile {
    type V = (Seq<char>, Seq<char>, Seq<char>, Seq<char>);

    open spec fn view(&self) -> (Seq<char>, Seq<char>, Seq<char>, Seq<char>) {
        (self.filename@, self.mime_type@, self.extension@, self.kind@)
    }
}

/// A picture just received: its name, media type and extension.
#[derive(Clone, Debug)]
pub struct UploadedFile {
    pub filename: String,
    pub mime_type: String,
    pub extension: String,
}

/// What replacing an attached picture does: the object removed from storage first (if any),
/// the name the upload is stored under, the record written (inserted when `inserts`,
/// otherwise written over the existing one) and the attachment the request answers with.
pub struct PictureReplacement {
    pub delete_name: Option<String>,
    pub upload_name: String,
    pub record: StoredFile,
    pub inserts: bool,
    pub answer: StoredFile,
}

/// The view of a [`PictureReplacement`].
pub struct PictureReplacementView {
    pub delete_name: Option<Seq<char>>,
    pub upload_name: Seq<char>,
    pub record: (Seq<char>, Seq<char>, Seq<char>, Seq<char>),
    pub inserts: bool,
    pub answer: (Seq<char>, Seq<char>, Seq<char>, Seq<char>),
}

impl View for PictureReplacement {
    type V = PictureReplacementView;

    open spec fn view(&self) -> PictureReplacementView {
        PictureReplacementView {
            delete_name: match self.delete_name {
                Some(n) => Some(n@),
                None => None,
            },
            upload_name: self.upload_name@,
            record: self.record@,
            inserts: self.inserts,
            answer: self.answer@,
        }
    }
}

/// The view of an optional stored record.
pub open spec fn stored_view(f: Option<StoredFile>) -> Option<(Seq<char>, Seq<char>, Seq<char>, Seq<char>)> {
    match f {
        Some(v) => Some(v@),
        None => None,
    }
}

/// Replacing a member's or an account's picture: an existing picture is removed from storage
/// under its name, the upload is stored under its own name, and the record takes the upload's
/// name and extension (keeping its media type, which the update writes under a key of its
/// own, and its kind); a new record holds the upload's name, media type and extension and the
/// kind `kind`. The answer is the record as it was before the update, or the new record.
pub open spec fn picture_plan(
    existing: Option<(Seq<char>, Seq<char>, Seq<char>, Seq<char>)>,
    upload: (Seq<char>, Seq<char>, Seq<char>),
    kind: Seq<char>,
) -> PictureReplacementView {
    match existing {
        Some(e) => PictureReplacementView {
            delete_name: Some(e.0),
            upload_name: upload.0,
            record: (upload.0, e.1, upload.2, e.3),
            inserts: false,
            answer: e,
        },
        None => PictureReplacementView {
            delete_name: None,
            upload_name: upload.0,
            record: (upload.0, upload.1, upload.2, kind),
            inserts: true,
            answer: (upload.0, upload.1, upload.2, kind),
        },
    }
}

/// Replacing a coach's picture or a product's image: an existing picture is removed from
/// storage and the upload is stored under the existing picture's name, the record keeping
/// that name and its media type (the update writes the media type under a key of its own)
/// and taking the upload's extension. Without one, the upload is
/// stored as its name, a `.` and its extension, while the new record (of kind `kind`) holds
/// the name alone. The answer is the record as it was before the update, or the new record.
pub open spec fn named_picture_plan(
    existing: Option<(Seq<char>, Seq<char>, Seq<char>, Seq<char>)>,
    upload: (Seq<char>, Seq<char>, Seq<char>),
    kind: Seq<char>,
) -> PictureReplacementView {
    match existing {
        Some(e) => PictureReplacementView {
            delete_name: Some(e.0),
            upload_name: e.0,
            record: (e.0, e.1, upload.2, e.3),
            inserts: false,
            answer: e,
        },
        None => PictureReplacementView {
            delete_name: None,
            upload_name: upload.0 + "."@ + upload.2,
            record: (upload.0, upload.1, upload.2, kind),
            inserts: true,
            answer: (upload.0, upload.1, upload.2, kind),
        },
    }
}

/// A copy of a stored record.
fn copy_stored(f: &StoredFile) -> (r: StoredFile)
    ensures
        r@ == f@,
{
    StoredFile {
        filename: f.filename.clone(),
        mime_type: f.mime_type.clone(),
        extension: f.extension.clone(),
        kind: f.kind.clone(),
    }
}

/// Plans the replacement of a member's picture (`kind` `MEMBER`) or an account's picture
/// (`kind` `USER`).
pub fn plan_picture(existing: &Option<StoredFile>, upload: &UploadedFile, kind: &str) -> (r:
    PictureReplacement)
    ensures
        r@ == picture_plan(
            stored_view(*existing),
            (upload.filename@, upload.mime_type@, upload.extension@),
            kind@,
        ),
{
    match existing {
        Some(e) => PictureReplacement {
            delete_name: Some(e.filename.clone()),
            upload_name: upload.filename.clone(),
            record: StoredFile {
                filename: upload.filename.clone(),
                mime_type: e.mime_type.clone(),
                extension: upload.extension.clone(),
                kind: e.kind.clone(),
            },
            inserts: false,
            answer: copy_stored(e),
        },
        None => {
            let record = StoredFile {
                filename: upload.filename.clone(),
                mime_type: upload.mime_type.clone(),
                extension: upload.extension.clone(),
                kind: kind.to_string(),
            };
            let answer = copy_stored(&record);
            PictureReplacement {
                delete_name: None,
                upload_name: upload.filename.clone(),
                record,
                inserts: true,
                answer,
            }
        },
    }
}

/// Plans the replacement of a coach's picture (`kind` `COACH`) or a product's image (`kind`
/// `USER`).
pub fn plan_named_picture(existing: &Option<StoredFile>, upload: &UploadedFile, kind: &str) -> (r:
    PictureReplacement)
    ensures
        r@ == named_picture_plan(
            stored_view(*existing),
            (upload.filename@, upload.mime_type@, upload.extension@),
            kind@,
        ),
{
    match existing {
        Some(e) => PictureReplacement {
            delete_name: Some(e.filename.clone()),
            upload_name: e.filename.clone(),
            record: StoredFile {
                filename: e.filename.clone(),
                mime_type: e.mime_type.clone(),
                extension: upload.extension.clone(),
                kind: e.kind.clone(),
            },
            inserts: false,
            answer: copy_stored(e),
        },
        None => {
            let record = StoredFile {
                filename: upload.filename.clone(),
                mime_type: upload.mime_type.clone(),
                extension: upload.extension.clone(),
                kind: kind.to_string(),
            };
            let answer = copy_stored(&record);
            PictureReplacement {
                delete_name: None,
                upload_name: picture_file_name(upload.filename.as_str(), upload.extension.as_str()),
                record,
                inserts: true,
                answer,
            }
        },
    }
}

} // verus!
