use vstd::prelude::*;
use vstd::string::*;
use crate::error::AccountError;
use crate::registry::Registry;

verus! {

/// The largest upload body accepted, in bytes (100 MiB).
pub const UPLOAD_LIMIT_BYTES: usize = 104857600;

/// The media type guessed for a file name, on the build target at hand.
pub uninterp spec fn media_type_of(file_name: Seq<char>) -> Seq<char>;

/// `name` starts with two path separators, the shape that a Windows build may
/// read whole as a prefix (a network share, or a verbatim or device path).
pub open spec fn starts_as_prefix(name: Seq<char>) -> bool {
    name.len() >= 2 && (name[0] == '/' || name[0] == '\\') && (name[1] == '/' || name[1] == '\\')
}

/// `name` ends in `.png`, in any letter case, after a stem whose last character
/// is not a path separator or a drive colon, and does not start as a prefix, so
/// that its extension in the sense of `Path::extension` is `png` on every build
/// target.
pub open spec fn has_png_extension(name: Seq<char>) -> bool {
    let n = name.len();
    &&& n >= 5
    &&& !starts_as_prefix(name)
    &&& name[n - 5] != '/' && name[n - 5] != '\\' && name[n - 5] != ':'
    &&& name[n - 4] == '.'
    &&& (name[n - 3] == 'p' || name[n - 3] == 'P')
    &&& (name[n - 2] == 'n' || name[n - 2] == 'N')
    &&& (name[n - 1] == 'g' || name[n - 1] == 'G')
}

/// `f` is a non-empty final path component, free of separators, that has no
/// extension: it holds no dot, or only a leading one (`.bashrc`).
pub open spec fn plain_component(f: Seq<char>) -> bool {
    &&& f.len() > 0
    &&& !f.contains('/') && !f.contains('\\')
    &&& !f.contains('.') || (f[0] == '.' && f.len() > 1 && !f.subrange(1, f.len() as int).contains('.'))
}

/// The last component of `name` (what follows its last `/`, or all of it) has
/// no extension, and `name` does not start as a prefix, so that
/// `Path::extension` finds none on every build target.
pub open spec fn has_no_extension(name: Seq<char>) -> bool {
    &&& !starts_as_prefix(name)
    &&& exists|k: int|
        0 <= k < name.len() && (k == 0 || name[k - 1] == '/') && plain_component(
            #[trigger] name.subrange(k, name.len() as int),
        )
}

/// Relies on `mime_guess::from_path(..).first_or_octet_stream()`: the first media
/// type that the crate's static table lists for the extension that
/// `Path::extension` finds in the name (compared without regard to case), or
/// `application/octet-stream` where there is none. The name is fixed for a given
/// build target, not across targets: how a path splits into components differs
/// (only Windows treats `\` as a separator and reads prefixes), so `a\.png`
/// is `image/png` on Linux and `application/octet-stream` on Windows. The clauses
/// below hold on every target: the table maps `png` to `image/png` alone, and a
/// name with no dot, or whose last component has no extension, gets the default.
#[verifier::external_body]
fn guess_media_type(file_name: &String) -> (r: String)
    ensures
        r@ == media_type_of(file_name@),
        has_png_extension(file_name@) ==> r@ == "image/png"@,
        !file_name@.contains('.') ==> r@ == "application/octet-stream"@,
        has_no_extension(file_name@) ==> r@ == "application/octet-stream"@,
{
    mime_guess::from_path(file_name.as_str()).first_or_octet_stream().to_string()
}

/// The remote query for the children of `container` that are not in the trash.
pub open spec fn children_query(container: Seq<char>) -> Seq<char> {
    "'"@ + container + "' in parents and trashed = false"@
}

/// The fields that a listing asks the provider for.
pub open spec fn listing_fields() -> Seq<char> {
    "files(id,name,mimeType,createdTime,modifiedTime,size,iconLink)"@
}

/// A listing call to the remote provider, scoped to one container.
pub struct ListRequest {
    pub query: String,
    pub fields: String,
}

/// The name of the multipart field that carries the file.
pub open spec fn file_field_name() -> Seq<char> {
    "file"@
}

/// The name given to an uploaded part that carries none.
pub open spec fn default_file_name() -> Seq<char> {
    "unknown_file"@
}

/// The file name under which a part is stored.
pub open spec fn stored_name(file_name: Option<String>) -> Seq<char> {
    match file_name {
        Some(n) => n@,
        None => default_file_name(),
    }
}

/// One event while reading a multipart upload body.
pub enum PartEvent {
    /// A part arrived, with its field name and file name where it has them.
    Part { field_name: Option<String>, file_name: Option<String> },
    /// No part is left.
    End,
    /// The body could not be read as multipart data.
    Unreadable,
}

/// An upload call to the remote provider.
pub struct UploadRequest {
    pub file_name: String,
    pub media_type: String,
    pub parent: String,
}

/// What to do after one multipart event.
pub enum UploadAction {
    /// Ignore this part and read the next one.
    Skip,
    /// Read this part's bytes and send them with this request; its reply ends the upload.
    Send(UploadRequest),
    /// Answer the upload with this failure.
    Fail(AccountError),
}

impl Registry {
    /// The listing call for `username`'s container; an unknown user is refused
    /// before any remote call.
    pub fn plan_list(&self, username: &String) -> (r: Result<ListRequest, AccountError>)
        requires
            self.wf(),
        ensures
            match r {
                Ok(req) => self@.contains_key(username@) && req.query@ == children_query(
                    self@[username@].container_id,
                ) && req.fields@ == listing_fields(),
                Err(e) => !self@.contains_key(username@) && e == AccountError::UserNotFound,
            },
    {
        let container_id = self.resolve(username)?;
        let query = String::from_str("'").concat(container_id.as_str()).concat(
            "' in parents and trashed = false",
        );
        let fields = String::from_str(
            "files(id,name,mimeType,createdTime,modifiedTime,size,iconLink)",
        );
        Ok(ListRequest { query, fields })
    }
}

/// The decision on one multipart event of an upload into `container_id`: the
/// part named `file` is sent, tagged with the media type its file name
/// suggests; other parts are skipped; running out of parts, or a body that
/// cannot be read, is a malformed request.
pub fn upload_step(container_id: &String, event: PartEvent) -> (r: UploadAction)
    ensures
        match event {
            PartEvent::End => r == UploadAction::Fail(AccountError::MalformedRequest),
            PartEvent::Unreadable => r == UploadAction::Fail(AccountError::MalformedRequest),
            PartEvent::Part { field_name, file_name } => if field_name matches Some(n) && n@
                == file_field_name() {
                &&& r matches UploadAction::Send(req)
                &&& req.file_name@ == stored_name(file_name)
                &&& req.media_type@ == media_type_of(stored_name(file_name))
                &&& has_png_extension(stored_name(file_name)) ==> req.media_type@ == "image/png"@
                &&& !stored_name(file_name).contains('.') ==> req.media_type@
                    == "application/octet-stream"@
                &&& has_no_extension(stored_name(file_name)) ==> req.media_type@
                    == "application/octet-stream"@
                &&& req.parent@ == container_id@
            } else {
                r is Skip
            },
        },
{
    match event {
        PartEvent::End => UploadAction::Fail(AccountError::MalformedRequest),
        PartEvent::Unreadable => UploadAction::Fail(AccountError::MalformedRequest),
        PartEvent::Part { field_name, file_name } => {
            let wanted = String::from_str("file");
            let is_file = match &field_name {
                Some(n) => *n == wanted,
                None => false,
            };
            if !is_file {
                return UploadAction::Skip;
            }
            let name = match file_name {
                Some(n) => n,
                None => String::from_str("unknown_file"),
            };
            let media_type = guess_media_type(&name);
            UploadAction::Send(UploadRequest { file_name: name, media_type, parent: container_id.clone() })
        },
    }
}

} // verus!
