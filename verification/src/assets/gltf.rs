use vstd::prelude::*;
use base64::Engine;
use crate::gfx::buffer::BufferMemory;
use crate::gfx::mesh::IndexBufferType;

verus! {

#[verifier::external_type_specification]
#[verifier::external_body]
pub struct ExBase64DecodeError(base64::DecodeError);

/// What decoding `input` with the standard base64 alphabet (with padding) gives, or `None`
/// when `input` is not valid base64.
pub uninterp spec fn base64_standard_decode(input: Seq<u8>) -> Option<Seq<u8>>;

/// Calls `base64::engine::general_purpose::STANDARD.decode`; trusted to give
/// `base64_standard_decode(input)` on success and to fail exactly when that is `None`.
#[verifier::external_body]
fn standard_base64_decode(input: &[u8]) -> (r: Result<Vec<u8>, base64::DecodeError>)
    ensures
        match r {
            Ok(v) => base64_standard_decode(input@) == Some(v@),
            Err(_) => base64_standard_decode(input@) is None,
        },
{
    base64::prelude::BASE64_STANDARD.decode(input)
}

/// Errors met while loading the dependencies of a glTF document.
#[derive(Clone, Copy, Debug, PartialEq, Eq, Structural)]
pub enum GltfError {
    /// The URI names a scheme other than `data:` and `file:`.
    UnsupportedUri,
    /// The payload of a `data:` URI is not valid base64.
    InvalidBase64,
    /// A buffer holds fewer bytes than the document declares.
    BufferTooShort { actual: usize, expected: usize },
    /// The document is not a valid glTF or binary glTF document.
    InvalidDocument,
    /// A buffer lives in the binary chunk, and there is none or another buffer took it.
    MissingBinaryChunk,
    /// The file a buffer names could not be read.
    ReadFailed,
    /// An image could not be decoded.
    InvalidImage,
    /// A primitive has no positions, or its accessors cannot be read from the buffers.
    InvalidPrimitive,
    /// An image lies outside the buffer its view names, or names neither a view nor a URI.
    InvalidImageSource,
}

/// Where a dependency of a glTF document comes from, as its URI tells.
#[derive(Clone, Debug, PartialEq, Eq)]
pub enum GltfDependencyUri {
    /// A `data:` URI: the media type part (when `;base64,` is present) and the payload.
    Base64(Option<Vec<u8>>, Vec<u8>),
    /// A `file:` or `file://` URI: the path after the scheme.
    Absolute(Vec<u8>),
    /// Any URI without a `:`, read as a path relative to the document.
    Relative,
}

/// The pieces of a URI, as plain sequences.
pub enum SpecUri {
    Base64(Option<Seq<u8>>, Seq<u8>),
    Absolute(Seq<u8>),
    Relative,
}

pub open spec fn spec_data_prefix() -> Seq<u8> {
    seq![100u8, 97u8, 116u8, 97u8, 58u8]
}

pub open spec fn spec_file_prefix() -> Seq<u8> {
    seq![102u8, 105u8, 108u8, 101u8, 58u8]
}

pub open spec fn spec_file_slashes_prefix() -> Seq<u8> {
    seq![102u8, 105u8, 108u8, 101u8, 58u8, 47u8, 47u8]
}

/// `;base64,`
pub open spec fn spec_base64_marker() -> Seq<u8> {
    seq![59u8, 98u8, 97u8, 115u8, 101u8, 54u8, 52u8, 44u8]
}

pub open spec fn starts_with(s: Seq<u8>, p: Seq<u8>) -> bool {
    p.len() <= s.len() && s.subrange(0, p.len() as int) == p
}

pub open spec fn occurs_at(s: Seq<u8>, p: Seq<u8>, i: int) -> bool {
    0 <= i && i + p.len() <= s.len() && s.subrange(i, i + p.len()) == p
}

/// The first position at or after `from` where `p` occurs in `s`.
pub open spec fn spec_find_from(s: Seq<u8>, p: Seq<u8>, from: int) -> Option<int>
    decreases s.len() + 1 - from,
{
    if from < 0 || from + p.len() > s.len() {
        None
    } else if occurs_at(s, p, from) {
        Some(from)
    } else {
        spec_find_from(s, p, from + 1)
    }
}

/// `spec_find_from` gives the first occurrence at or after `from`.
pub proof fn lemma_find_from(s: Seq<u8>, p: Seq<u8>, from: int)
    requires
        from >= 0,
    ensures
        match spec_find_from(s, p, from) {
            Some(i) => from <= i && occurs_at(s, p, i) && forall|j: int| from <= j < i ==> !occurs_at(s, p, j),
            None => forall|j: int| from <= j ==> !occurs_at(s, p, j),
        },
    decreases s.len() + 1 - from,
{
    if from < 0 || from + p.len() > s.len() {
    } else if occurs_at(s, p, from) {
    } else {
        lemma_find_from(s, p, from + 1);
    }
}

/// The text between the first occurrence of the marker (or the end), as the
/// second piece of a split on the marker.
pub open spec fn spec_second_piece(rest: Seq<u8>, k: int) -> Seq<u8> {
    let start = k + spec_base64_marker().len();
    match spec_find_from(rest, spec_base64_marker(), start) {
        Some(e) => rest.subrange(start, e),
        None => rest.subrange(start, rest.len() as int),
    }
}

/// How a URI is read: no `:` means a relative path; `data:` is split on `;base64,` into the
/// part before the first marker and the piece after it; `file://` and `file:` give the path
/// after the scheme; any other scheme is refused.
pub open spec fn spec_parse_uri(uri: Seq<u8>) -> Option<SpecUri> {
    if !uri.contains(58u8) {
        Some(SpecUri::Relative)
    } else if starts_with(uri, spec_data_prefix()) {
        let rest = uri.subrange(5, uri.len() as int);
        match spec_find_from(rest, spec_base64_marker(), 0) {
            Some(k) => Some(SpecUri::Base64(Some(rest.subrange(0, k)), spec_second_piece(rest, k))),
            None => Some(SpecUri::Base64(None, rest)),
        }
    } else if starts_with(uri, spec_file_slashes_prefix()) {
        Some(SpecUri::Absolute(uri.subrange(7, uri.len() as int)))
    } else if starts_with(uri, spec_file_prefix()) {
        Some(SpecUri::Absolute(uri.subrange(5, uri.len() as int)))
    } else {
        None
    }
}

impl GltfDependencyUri {
    pub open spec fn spec_view(self) -> SpecUri {
        match self {
            GltfDependencyUri::Base64(m, p) => SpecUri::Base64(
                match m {
                    Some(v) => Some(v@),
                    None => None,
                },
                p@,
            ),
            GltfDependencyUri::Absolute(p) => SpecUri::Absolute(p@),
            GltfDependencyUri::Relative => SpecUri::Relative,
        }
    }
}

fn data_prefix() -> (r: Vec<u8>)
    ensures
        r@ == spec_data_prefix(),
{
    let r = vec![100u8, 97u8, 116u8, 97u8, 58u8];
    assert(r@ =~= spec_data_prefix());
    r
}

fn file_prefix() -> (r: Vec<u8>)
    ensures
        r@ == spec_file_prefix(),
{
    let r = vec![102u8, 105u8, 108u8, 101u8, 58u8];
    assert(r@ =~= spec_file_prefix());
    r
}

fn file_slashes_prefix() -> (r: Vec<u8>)
    ensures
        r@ == spec_file_slashes_prefix(),
{
    let r = vec![102u8, 105u8, 108u8, 101u8, 58u8, 47u8, 47u8];
    assert(r@ =~= spec_file_slashes_prefix());
    r
}

fn base64_marker() -> (r: Vec<u8>)
    ensures
        r@ == spec_base64_marker(),
{
    let r = vec![59u8, 98u8, 97u8, 115u8, 101u8, 54u8, 52u8, 44u8];
    assert(r@ =~= spec_base64_marker());
    r
}

/// Whether `p` occurs in `s` at position `i`.
fn matches_at(s: &[u8], p: &Vec<u8>, i: usize) -> (r: bool)
    ensures
        r == occurs_at(s@, p@, i as int),
{
    if i > s.len() || p.len() > s.len() - i {
        return false;
    }
    let mut j: usize = 0;
    while j < p.len()
        invariant
            j <= p.len(),
            i + p.len() <= s.len(),
            forall|k: int| 0 <= k < j ==> s@[i + k] == p@[k],
        decreases p.len() - j,
    {
        if s[i + j] != p[j] {
            assert(s@.subrange(i as int, i + p.len())[j as int] != p@[j as int]);
            return false;
        }
        j = j + 1;
    }
    assert(s@.subrange(i as int, i + p.len()) =~= p@);
    true
}

/// The first position at or after `from` where `p` occurs in `s`.
fn find_from(s: &[u8], p: &Vec<u8>, from: usize) -> (r: Option<usize>)
    ensures
        match r {
            Some(i) => spec_find_from(s@, p@, from as int) == Some(i as int),
            None => spec_find_from(s@, p@, from as int) is None,
        },
{
    let mut i = from;
    loop
        invariant
            from <= i,
            spec_find_from(s@, p@, from as int) == spec_find_from(s@, p@, i as int),
        decreases s.len() + 1 - i,
    {
        if i > s.len() || p.len() > s.len() - i {
            return None;
        }
        if matches_at(s, p, i) {
            return Some(i);
        }
        if i == s.len() {
            assert(spec_find_from(s@, p@, i + 1) is None);
            return None;
        }
        i = i + 1;
    }
}

fn copy_range(s: &[u8], start: usize, end: usize) -> (r: Vec<u8>)
    requires
        start <= end <= s.len(),
    ensures
        r@ == s@.subrange(start as int, end as int),
{
    let mut out: Vec<u8> = Vec::new();
    let mut i = start;
    while i < end
        invariant
            start <= i <= end <= s.len(),
            out@ =~= s@.subrange(start as int, i as int),
        decreases end - i,
    {
        out.push(s[i]);
        i = i + 1;
    }
    out
}

fn contains_byte(s: &[u8], b: u8) -> (r: bool)
    ensures
        r == s@.contains(b),
{
    let mut i: usize = 0;
    while i < s.len()
        invariant
            i <= s.len(),
            forall|k: int| 0 <= k < i ==> s@[k] != b,
        decreases s.len() - i,
    {
        if s[i] == b {
            assert(s@[i as int] == b);
            return true;
        }
        i = i + 1;
    }
    false
}

impl GltfDependencyUri {
    /// Reads where a dependency comes from out of its URI (see `spec_parse_uri`).
    pub fn parse(uri: &[u8]) -> (r: Result<GltfDependencyUri, GltfError>)
        ensures
            match spec_parse_uri(uri@) {
                Some(v) => r matches Ok(u) && u.spec_view() == v,
                None => r == Err::<GltfDependencyUri, GltfError>(GltfError::UnsupportedUri),
            },
    {
        if !contains_byte(uri, 58u8) {
            return Ok(GltfDependencyUri::Relative);
        }
        let data = data_prefix();
        if matches_at(uri, &data, 0) {
            assert(uri@.subrange(0, 5) == spec_data_prefix());
            let rest = copy_range(uri, 5, uri.len());
            let marker = base64_marker();
            proof {
                lemma_find_from(rest@, marker@, 0);
            }
            match find_from(rest.as_slice(), &marker, 0) {
                Some(k) => {
                    proof {
                        lemma_find_from(rest@, marker@, k + 8);
                    }
                    let first = copy_range(rest.as_slice(), 0, k);
                    let start = k + 8;
                    let second = match find_from(rest.as_slice(), &marker, start) {
                        Some(e) => copy_range(rest.as_slice(), start, e),
                        None => copy_range(rest.as_slice(), start, rest.len()),
                    };
                    return Ok(GltfDependencyUri::Base64(Some(first), second));
                },
                None => {
                    return Ok(GltfDependencyUri::Base64(None, rest));
                },
            }
        }
        let slashes = file_slashes_prefix();
        if matches_at(uri, &slashes, 0) {
            return Ok(GltfDependencyUri::Absolute(copy_range(uri, 7, uri.len())));
        }
        let file = file_prefix();
        if matches_at(uri, &file, 0) {
            return Ok(GltfDependencyUri::Absolute(copy_range(uri, 5, uri.len())));
        }
        Err(GltfError::UnsupportedUri)
    }
}

/// Where the bytes of a dependency are to be read from.
#[derive(Clone, Debug, PartialEq, Eq)]
pub enum DependencySource {
    /// The bytes, decoded from a `data:` URI.
    Bytes(Vec<u8>),
    /// A file at this absolute path.
    AbsolutePath(Vec<u8>),
    /// A file at the URI taken as a path relative to the document (or to the working
    /// directory when it is not there).
    RelativePath,
}

pub enum SpecSource {
    Bytes(Seq<u8>),
    AbsolutePath(Seq<u8>),
    RelativePath,
}

impl DependencySource {
    pub open spec fn spec_view(self) -> SpecSource {
        match self {
            DependencySource::Bytes(b) => SpecSource::Bytes(b@),
            DependencySource::AbsolutePath(p) => SpecSource::AbsolutePath(p@),
            DependencySource::RelativePath => SpecSource::RelativePath,
        }
    }
}

/// Where the bytes of the dependency named by `uri` come from: decoded base64 for a `data:`
/// URI, a path otherwise.
pub open spec fn spec_dependency_source(uri: Seq<u8>) -> Result<SpecSource, GltfError> {
    match spec_parse_uri(uri) {
        None => Err(GltfError::UnsupportedUri),
        Some(SpecUri::Base64(_, payload)) => match base64_standard_decode(payload) {
            Some(bytes) => Ok(SpecSource::Bytes(bytes)),
            None => Err(GltfError::InvalidBase64),
        },
        Some(SpecUri::Absolute(path)) => Ok(SpecSource::AbsolutePath(path)),
        Some(SpecUri::Relative) => Ok(SpecSource::RelativePath),
    }
}

impl GltfDependencyUri {
    /// The source of a `data:` payload once it has been decoded (`None` when it was not
    /// valid base64).
    pub fn decoded_source(decoded: Option<Vec<u8>>) -> (r: Result<DependencySource, GltfError>)
        ensures
            match decoded {
                Some(bytes) => r == Ok::<DependencySource, GltfError>(DependencySource::Bytes(bytes)),
                None => r == Err::<DependencySource, GltfError>(GltfError::InvalidBase64),
            },
    {
        match decoded {
            Some(bytes) => Ok(DependencySource::Bytes(bytes)),
            None => Err(GltfError::InvalidBase64),
        }
    }

    /// Where the bytes of the dependency named by `uri` are read from; a `data:` payload is
    /// decoded here.
    pub fn load_source(uri: &[u8]) -> (r: Result<DependencySource, GltfError>)
        ensures
            match (r, spec_dependency_source(uri@)) {
                (Ok(s), Ok(v)) => s.spec_view() == v,
                (Err(e), Err(f)) => e == f,
                _ => false,
            },
    {
        match GltfDependencyUri::parse(uri) {
            Err(e) => Err(e),
            Ok(GltfDependencyUri::Base64(_, payload)) => {
                let decoded = match standard_base64_decode(payload.as_slice()) {
                    Ok(bytes) => Some(bytes),
                    Err(_) => None,
                };
                GltfDependencyUri::decoded_source(decoded)
            },
            Ok(GltfDependencyUri::Absolute(path)) => Ok(DependencySource::AbsolutePath(path)),
            Ok(GltfDependencyUri::Relative) => Ok(DependencySource::RelativePath),
        }
    }
}

/// `n` zero bytes.
pub open spec fn zeros(n: nat) -> Seq<u8> {
    Seq::new(n, |i: int| 0u8)
}

/// The number of zero bytes that bring a length of `len` to a multiple of four.
pub open spec fn padding(len: nat) -> nat {
    ((4 - len % 4) % 4) as nat
}

/// Checks a buffer read for a document that declares it `declared_length` bytes long, and pads
/// it with zeros to a multiple of four bytes.
pub fn prepare_buffer(data: Vec<u8>, declared_length: usize) -> (r: Result<Vec<u8>, GltfError>)
    requires
        data@.len() + 3 <= usize::MAX,
    ensures
        data@.len() < declared_length ==> r == Err::<Vec<u8>, GltfError>(GltfError::BufferTooShort {
            actual: data@.len() as usize,
            expected: declared_length,
        }),
        data@.len() >= declared_length ==> (r matches Ok(v) && v@ == data@ + zeros(padding(data@.len()))),
        r matches Ok(v) ==> v@.len() % 4 == 0,
{
    if data.len() < declared_length {
        return Err(GltfError::BufferTooShort { actual: data.len(), expected: declared_length });
    }
    let ghost original = data@;
    let mut data = data;
    while data.len() % 4 != 0
        invariant
            original.len() <= data@.len() <= original.len() + 3,
            original.len() + 3 <= usize::MAX,
            data@.len() <= original.len() + padding(original.len()),
            data@ == original + zeros((data@.len() - original.len()) as nat),
        decreases original.len() + 3 - data@.len(),
    {
        data.push(0u8);
        assert(data@ =~= original + zeros((data@.len() - original.len()) as nat));
    }
    assert(data@.len() == original.len() + padding(original.len()));
    Ok(data)
}

/// A buffer as a glTF document declares it: its URI (none for the binary chunk of a binary
/// document) and its length in bytes.
#[derive(Clone, Debug, PartialEq, Eq)]
pub struct BufferDecl {
    pub uri: Option<Vec<u8>>,
    pub length: usize,
}

/// A declared buffer, as plain sequences.
pub struct SpecBufferDecl {
    pub uri: Option<Seq<u8>>,
    pub length: usize,
}

pub open spec fn opt_bytes(o: Option<Vec<u8>>) -> Option<Seq<u8>> {
    match o {
        Some(v) => Some(v@),
        None => None,
    }
}

impl BufferDecl {
    pub open spec fn spec_view(self) -> SpecBufferDecl {
        SpecBufferDecl { uri: opt_bytes(self.uri), length: self.length }
    }
}

pub open spec fn decls_view(decls: Seq<BufferDecl>) -> Seq<SpecBufferDecl> {
    decls.map_values(|d: BufferDecl| d.spec_view())
}

/// The four bytes `glTF` that open a binary glTF document.
pub open spec fn spec_glb_magic() -> Seq<u8> {
    seq![103u8, 108u8, 84u8, 70u8]
}

/// The bytes open with a whole binary glTF header: the magic, the version and the length.
pub open spec fn has_glb_header(bytes: Seq<u8>) -> bool {
    bytes.len() >= 12 && starts_with(bytes, spec_glb_magic())
}

/// The total length in bytes that a binary glTF header declares (little-endian, at byte 8).
pub open spec fn glb_declared_length(bytes: Seq<u8>) -> int {
    bytes[8] + 256 * bytes[9] + 65536 * bytes[10] + 16777216 * bytes[11]
}

/// A binary glTF header that declares fewer bytes than the header itself takes.
pub open spec fn glb_length_too_short(bytes: Seq<u8>) -> bool {
    has_glb_header(bytes) && glb_declared_length(bytes) < 12
}

/// The bytes a document is read from: a binary document ends where its header says when the
/// bytes reach that far, and anything after it is ignored; other bytes are read whole.
pub open spec fn document_bytes(bytes: Seq<u8>) -> Seq<u8> {
    if has_glb_header(bytes) && 12 <= glb_declared_length(bytes) <= bytes.len() {
        bytes.subrange(0, glb_declared_length(bytes))
    } else {
        bytes
    }
}

/// The bytes a document is read from never hold a header that declares too few bytes.
pub proof fn lemma_document_bytes(bytes: Seq<u8>)
    requires
        !glb_length_too_short(bytes),
    ensures
        !glb_length_too_short(document_bytes(bytes)),
{
    let d = document_bytes(bytes);
    if d != bytes && has_glb_header(d) {
        assert(d[8] == bytes[8] && d[9] == bytes[9] && d[10] == bytes[10] && d[11] == bytes[11]);
    }
}

/// Bytes after the end a binary document's header declares do not change what is read.
pub proof fn lemma_trailing_bytes_ignored(bytes: Seq<u8>, extra: Seq<u8>)
    requires
        has_glb_header(bytes),
        12 <= glb_declared_length(bytes) <= bytes.len(),
    ensures
        document_bytes(bytes + extra) == document_bytes(bytes),
{
    let all = bytes + extra;
    assert(all.subrange(0, 4) =~= bytes.subrange(0, 4));
    assert(all[8] == bytes[8] && all[9] == bytes[9] && all[10] == bytes[10] && all[11] == bytes[11]);
    assert(all.subrange(0, glb_declared_length(bytes)) =~= bytes.subrange(0, glb_declared_length(bytes)));
}

/// Cuts a binary document at the length its header declares; refuses a header that declares
/// fewer bytes than it takes itself.
pub fn document_slice(bytes: &[u8]) -> (r: Result<&[u8], GltfError>)
    ensures
        glb_length_too_short(bytes@) ==> r matches Err(GltfError::InvalidDocument),
        !glb_length_too_short(bytes@) ==> (r matches Ok(s) && s@ == document_bytes(bytes@)),
{
    proof {
        if has_glb_header(bytes@) {
            assert(bytes@.subrange(0, 4) == spec_glb_magic());
            assert(bytes@.subrange(0, 4)[0] == bytes@[0]);
            assert(bytes@.subrange(0, 4)[1] == bytes@[1]);
            assert(bytes@.subrange(0, 4)[2] == bytes@[2]);
            assert(bytes@.subrange(0, 4)[3] == bytes@[3]);
        }
    }
    if bytes.len() >= 12 && bytes[0] == 103u8 && bytes[1] == 108u8 && bytes[2] == 84u8 && bytes[3] == 70u8 {
        assert(bytes@.subrange(0, 4) =~= spec_glb_magic());
        let declared: u64 = bytes[8] as u64 + 256 * (bytes[9] as u64) + 65536 * (bytes[10] as u64)
            + 16777216 * (bytes[11] as u64);
        if declared < 12 {
            return Err(GltfError::InvalidDocument);
        }
        if declared <= bytes.len() as u64 {
            return Ok(vstd::slice::slice_subrange(bytes, 0, declared as usize));
        }
    }
    Ok(bytes)
}

/// What reading `bytes` as a glTF or binary glTF document gives: its buffers in document
/// order and its binary chunk, or `None` when it is not a valid document.
pub uninterp spec fn gltf_buffers(bytes: Seq<u8>) -> Option<(Seq<SpecBufferDecl>, Option<Seq<u8>>)>;

/// Calls `gltf::Gltf::from_slice` and lists the buffers of the document it reads; trusted to
/// give `gltf_buffers(bytes)`. A binary header that declares fewer than 12 bytes is left out:
/// `from_slice` subtracts the header's size from that length without a check.
#[verifier::external_body]
fn parse_gltf(bytes: &[u8]) -> (r: Option<(Vec<BufferDecl>, Option<Vec<u8>>)>)
    requires
        !glb_length_too_short(bytes@),
    ensures
        match r {
            Some((d, b)) => gltf_buffers(bytes@) == Some((decls_view(d@), opt_bytes(b))),
            None => gltf_buffers(bytes@) is None,
        },
{
    let gltf = gltf::Gltf::from_slice(bytes).ok()?;
    let decls = gltf.document.buffers().map(|b| BufferDecl {
        uri: match b.source() {
            gltf::buffer::Source::Uri(uri) => Some(uri.as_bytes().to_vec()),
            gltf::buffer::Source::Bin => None,
        },
        length: b.length(),
    }).collect();
    Some((decls, gltf.blob))
}

/// The buffers of a glTF document and its binary chunk.
pub struct GltfDocument {
    pub buffers: Vec<BufferDecl>,
    pub blob: Option<Vec<u8>>,
}

impl GltfDocument {
    /// Reads the buffers of the document whose bytes are `bytes` (see `document_bytes`).
    pub fn parse(bytes: &[u8]) -> (r: Result<GltfDocument, GltfError>)
        ensures
            glb_length_too_short(bytes@) ==> r matches Err(GltfError::InvalidDocument),
            !glb_length_too_short(bytes@) ==> match gltf_buffers(document_bytes(bytes@)) {
                Some((d, b)) => r matches Ok(doc) && decls_view(doc.buffers@) == d && opt_bytes(doc.blob) == b,
                None => r matches Err(GltfError::InvalidDocument),
            },
    {
        let doc = match document_slice(bytes) {
            Ok(d) => d,
            Err(e) => return Err(e),
        };
        proof {
            lemma_document_bytes(bytes@);
        }
        match parse_gltf(doc) {
            Some((buffers, blob)) => Ok(GltfDocument { buffers, blob }),
            None => Err(GltfError::InvalidDocument),
        }
    }
}

/// Where the bytes of a buffer come from.
#[derive(Clone, Debug, PartialEq, Eq)]
pub enum BufferSource {
    /// The binary chunk of the document.
    Blob(Vec<u8>),
    /// What the buffer's URI names.
    Dependency(DependencySource),
}

pub enum SpecBufferSource {
    Blob(Seq<u8>),
    Dependency(SpecSource),
}

impl BufferSource {
    pub open spec fn spec_view(self) -> SpecBufferSource {
        match self {
            BufferSource::Blob(b) => SpecBufferSource::Blob(b@),
            BufferSource::Dependency(d) => SpecBufferSource::Dependency(d.spec_view()),
        }
    }
}

pub open spec fn source_view(r: Result<BufferSource, GltfError>) -> Result<SpecBufferSource, GltfError> {
    match r {
        Ok(s) => Ok(s.spec_view()),
        Err(e) => Err(e),
    }
}

/// No buffer before position `j` lives in the binary chunk.
pub open spec fn no_chunk_before(decls: Seq<SpecBufferDecl>, j: int) -> bool {
    forall|k: int| 0 <= k < j ==> (#[trigger] decls[k]).uri is Some
}

/// Where buffer `j` comes from: what its URI names, or the binary chunk, which goes to the
/// first buffer that has no URI; later such buffers find no chunk left.
pub open spec fn spec_buffer_source(decls: Seq<SpecBufferDecl>, blob: Option<Seq<u8>>, j: int) -> Result<SpecBufferSource, GltfError> {
    match decls[j].uri {
        Some(uri) => match spec_dependency_source(uri) {
            Ok(s) => Ok(SpecBufferSource::Dependency(s)),
            Err(e) => Err(e),
        },
        None => match blob {
            Some(b) => if no_chunk_before(decls, j) {
                Ok(SpecBufferSource::Blob(b))
            } else {
                Err(GltfError::MissingBinaryChunk)
            },
            None => Err(GltfError::MissingBinaryChunk),
        },
    }
}

/// Where the bytes of each buffer of `decls` come from, in document order.
pub fn buffer_sources(decls: &Vec<BufferDecl>, blob: Option<Vec<u8>>) -> (r: Vec<Result<BufferSource, GltfError>>)
    ensures
        r@.len() == decls@.len(),
        forall|j: int| 0 <= j < decls@.len() ==> source_view(#[trigger] r@[j]) == spec_buffer_source(decls_view(decls@), opt_bytes(blob), j),
{
    let ghost view = decls_view(decls@);
    let ghost original = opt_bytes(blob);
    let mut remaining = blob;
    let mut out: Vec<Result<BufferSource, GltfError>> = Vec::new();
    let mut j: usize = 0;
    while j < decls.len()
        invariant
            j <= decls.len(),
            view == decls_view(decls@),
            out@.len() == j,
            forall|k: int| 0 <= k < j ==> source_view(#[trigger] out@[k]) == spec_buffer_source(view, original, k),
            opt_bytes(remaining) == (if no_chunk_before(view, j as int) { original } else { None }),
        decreases decls.len() - j,
    {
        let ghost before = remaining;
        let source = match &decls[j].uri {
            Some(uri) => match GltfDependencyUri::load_source(uri.as_slice()) {
                Ok(s) => Ok(BufferSource::Dependency(s)),
                Err(e) => Err(e),
            },
            None => match remaining.take() {
                Some(b) => Ok(BufferSource::Blob(b)),
                None => Err(GltfError::MissingBinaryChunk),
            },
        };
        assert(view[j as int] == decls@[j as int].spec_view());
        proof {
            if decls@[j as int].uri is None {
                assert(!no_chunk_before(view, j + 1));
            } else {
                assert forall|k: int| 0 <= k < j + 1 && no_chunk_before(view, j as int) implies (#[trigger] view[k]).uri is Some by {
                    if k < j {
                        assert(view[k].uri is Some);
                    }
                }
            }
        }
        out.push(source);
        j = j + 1;
    }
    out
}

/// What a buffer declared by `decl` holds once its bytes, or the error met reading them, are
/// in: a buffer shorter than declared is refused, any other is padded to a multiple of four
/// bytes.
pub open spec fn spec_import_one(decl: SpecBufferDecl, loaded: Result<Seq<u8>, GltfError>) -> Result<Seq<u8>, GltfError> {
    match loaded {
        Err(e) => Err(e),
        Ok(b) => if b.len() < decl.length {
            Err(GltfError::BufferTooShort { actual: b.len() as usize, expected: decl.length })
        } else {
            Ok(b + zeros(padding(b.len())))
        },
    }
}

/// The buffers of a document, taken in document order: the first buffer whose bytes could not
/// be read, or that is too short, gives the error.
pub open spec fn spec_import(decls: Seq<SpecBufferDecl>, loaded: Seq<Result<Seq<u8>, GltfError>>) -> Result<Seq<Seq<u8>>, GltfError>
    decreases loaded.len(),
{
    if loaded.len() == 0 {
        Ok(Seq::empty())
    } else {
        match spec_import(decls, loaded.drop_last()) {
            Err(e) => Err(e),
            Ok(v) => match spec_import_one(decls[loaded.len() - 1], loaded.last()) {
                Err(e) => Err(e),
                Ok(b) => Ok(v.push(b)),
            },
        }
    }
}

pub open spec fn loaded_view(loaded: Seq<Result<Vec<u8>, GltfError>>) -> Seq<Result<Seq<u8>, GltfError>> {
    loaded.map_values(|l: Result<Vec<u8>, GltfError>| match l {
        Ok(b) => Ok(b@),
        Err(e) => Err(e),
    })
}

/// Checks and pads the buffers of a document, given for each declared buffer its bytes or the
/// error met reading them.
#[verifier::loop_isolation(false)]
pub fn import_buffers(decls: &Vec<BufferDecl>, loaded: Vec<Result<Vec<u8>, GltfError>>) -> (r: Result<Vec<Vec<u8>>, GltfError>)
    requires
        loaded@.len() == decls@.len(),
        forall|j: int| 0 <= j < loaded@.len() ==> (#[trigger] loaded@[j] matches Ok(b) ==> b@.len() + 3 <= usize::MAX),
    ensures
        match (r, spec_import(decls_view(decls@), loaded_view(loaded@))) {
            (Ok(v), Ok(w)) => v@.map_values(|b: Vec<u8>| b@) == w,
            (Err(e), Err(f)) => e == f,
            _ => false,
        },
{
    let ghost view = decls_view(decls@);
    let ghost lv = loaded_view(loaded@);
    let mut loaded = loaded;
    let ghost all = loaded@;
    let mut out: Vec<Vec<u8>> = Vec::new();
    let mut j: usize = 0;
    let count = loaded.len();
    assert(all.len() == count);
    assert(out@.map_values(|b: Vec<u8>| b@) =~= Seq::<Seq<u8>>::empty());
    assert(all.subrange(0, all.len() as int) =~= all);
    while loaded.len() > 0
        invariant
            j + loaded@.len() == all.len(),
            all.len() == decls@.len(),
            all.len() <= usize::MAX,
            view == decls_view(decls@),
            lv == loaded_view(all),
            loaded@ == all.subrange(j as int, all.len() as int),
            forall|k: int| 0 <= k < all.len() ==> (#[trigger] all[k] matches Ok(b) ==> b@.len() + 3 <= usize::MAX),
            spec_import(view, lv.take(j as int)) == Ok::<Seq<Seq<u8>>, GltfError>(out@.map_values(|b: Vec<u8>| b@)),
        decreases loaded@.len(),
    {
        let item = loaded.remove(0);
        assert(item == all[j as int]);
        assert(loaded@ =~= all.subrange(j + 1, all.len() as int));
        assert(lv.take(j + 1).drop_last() =~= lv.take(j as int));
        assert(lv[j as int] == (match item {
            Ok(b) => Ok(b@),
            Err(e) => Err::<Seq<u8>, GltfError>(e),
        }));
        assert(view[j as int] == decls@[j as int].spec_view());
        match item {
            Err(e) => {
                assert(spec_import_one(view[j as int], lv[j as int]) == Err::<Seq<u8>, GltfError>(e));
                proof { lemma_import_stops(view, lv, j as int); }
                assert(spec_import(view, lv) == Err::<Seq<Seq<u8>>, GltfError>(e));
                return Err(e);
            },
            Ok(bytes) => {
                let ghost b = bytes@;
                match prepare_buffer(bytes, decls[j].length) {
                    Err(e) => {
                        assert(lv[j as int] == Ok::<Seq<u8>, GltfError>(b));
                        assert(spec_import_one(view[j as int], lv[j as int]) == Err::<Seq<u8>, GltfError>(e));
                        proof { lemma_import_stops(view, lv, j as int); }
                        assert(spec_import(view, lv) == Err::<Seq<Seq<u8>>, GltfError>(e));
                        return Err(e);
                    },
                    Ok(padded) => {
                        let ghost before = out@;
                        out.push(padded);
                        assert(out@.map_values(|b: Vec<u8>| b@) =~= before.map_values(|b: Vec<u8>| b@).push(padded@));
                    },
                }
            },
        }
        j = j + 1;
    }
    assert(lv.take(j as int) =~= lv);
    Ok(out)
}

/// Once a buffer fails, the whole import fails with its error.
proof fn lemma_import_stops(decls: Seq<SpecBufferDecl>, loaded: Seq<Result<Seq<u8>, GltfError>>, j: int)
    requires
        0 <= j < loaded.len(),
        spec_import(decls, loaded.take(j)) is Ok,
        spec_import_one(decls[j], loaded[j]) is Err,
    ensures
        spec_import(decls, loaded) == Err::<Seq<Seq<u8>>, GltfError>(spec_import_one(decls[j], loaded[j])->Err_0),
    decreases loaded.len(),
{
    if j == loaded.len() - 1 {
        assert(loaded.drop_last() =~= loaded.take(j));
    } else {
        assert(loaded.drop_last().take(j) =~= loaded.take(j));
        lemma_import_stops(decls, loaded.drop_last(), j);
    }
}

/// The vertices of a primitive of a glTF mesh, with its indices when it has some.
pub struct GltfPrimitiveData {
    pub index: Option<BufferMemory>,
    pub vertex: BufferMemory,
    pub index_type: IndexBufferType,
}

impl GltfPrimitiveData {
    /// A primitive whose index type follows the width of its indices (32-bit when it has
    /// none); indices whose width is not 1, 2 or 4 bytes give `None`.
    pub fn new(vertex: BufferMemory, index: Option<BufferMemory>) -> (r: Option<GltfPrimitiveData>)
        ensures
            match index {
                None => r matches Some(p) && p.index is None && p.vertex == vertex && p.index_type
                    == IndexBufferType::Uint32,
                Some(i) => match IndexBufferType::spec_from_stride(i.spec_stride()) {
                    None => r is None,
                    Some(t) => r matches Some(p) && p.index == Some(i) && p.vertex == vertex
                        && p.index_type == t,
                },
            },
    {
        match index {
            None => Some(GltfPrimitiveData { index: None, vertex, index_type: IndexBufferType::default() }),
            Some(i) => match IndexBufferType::from_stride(i.stride()) {
                None => None,
                Some(t) => Some(GltfPrimitiveData { index: Some(i), vertex, index_type: t }),
            },
        }
    }
}

/// How an embedded image is decoded.
#[derive(Clone, Copy, Debug, PartialEq, Eq, Structural)]
pub enum ImageEncoding {
    Png,
    Jpeg,
    /// The format is to be guessed from the bytes.
    Guess,
}

pub open spec fn spec_png_mime() -> Seq<u8> {
    seq![105u8, 109u8, 97u8, 103u8, 101u8, 47u8, 112u8, 110u8, 103u8]
}

pub open spec fn spec_jpeg_mime() -> Seq<u8> {
    seq![105u8, 109u8, 97u8, 103u8, 101u8, 47u8, 106u8, 112u8, 101u8, 103u8]
}

fn same_bytes(a: &[u8], b: &Vec<u8>) -> (r: bool)
    ensures
        r == (a@ == b@),
{
    if a.len() != b.len() {
        return false;
    }
    assert(a@.subrange(0, b@.len() as int) =~= a@);
    matches_at(a, b, 0)
}

impl ImageEncoding {
    /// `image/png` and `image/jpeg` name their format; any other media type, or none, leaves
    /// the format to be guessed.
    pub fn from_mime(mime: Option<&[u8]>) -> (r: ImageEncoding)
        ensures
            r == match mime {
                Some(m) => if m@ == spec_png_mime() {
                    ImageEncoding::Png
                } else if m@ == spec_jpeg_mime() {
                    ImageEncoding::Jpeg
                } else {
                    ImageEncoding::Guess
                },
                None => ImageEncoding::Guess,
            },
    {
        match mime {
            None => ImageEncoding::Guess,
            Some(m) => {
                let png = vec![105u8, 109u8, 97u8, 103u8, 101u8, 47u8, 112u8, 110u8, 103u8];
                assert(png@ =~= spec_png_mime());
                let jpeg = vec![105u8, 109u8, 97u8, 103u8, 101u8, 47u8, 106u8, 112u8, 101u8, 103u8];
                assert(jpeg@ =~= spec_jpeg_mime());
                if same_bytes(m, &png) {
                    ImageEncoding::Png
                } else if same_bytes(m, &jpeg) {
                    ImageEncoding::Jpeg
                } else {
                    ImageEncoding::Guess
                }
            },
        }
    }
}


/// An image format that a media type names.
#[derive(Clone, Copy, Debug, PartialEq, Eq, Structural)]
pub enum KnownImageFormat {
    Png,
    Jpeg,
}

/// A decoded image, as 8-bit RGBA pixels row after row.
#[derive(Clone, Debug, PartialEq, Eq)]
pub struct DecodedImage {
    pub width: u32,
    pub height: u32,
    pub rgba: Vec<u8>,
}

/// A decoded image, as plain values.
pub struct SpecDecodedImage {
    pub width: u32,
    pub height: u32,
    pub rgba: Seq<u8>,
}

impl DecodedImage {
    pub open spec fn spec_view(self) -> SpecDecodedImage {
        SpecDecodedImage { width: self.width, height: self.height, rgba: self.rgba@ }
    }
}

pub open spec fn opt_image(o: Option<DecodedImage>) -> Option<SpecDecodedImage> {
    match o {
        Some(i) => Some(i.spec_view()),
        None => None,
    }
}

/// What decoding `data` as an image of `format` gives, converted to RGBA, or `None` when it
/// is not such an image.
pub uninterp spec fn image_decode_with_format(data: Seq<u8>, format: KnownImageFormat) -> Option<SpecDecodedImage>;

/// What decoding `data` as an image of the format its first bytes tell gives, converted to
/// RGBA, or `None` when no format is recognised or the data is not such an image.
pub uninterp spec fn image_decode_guessed(data: Seq<u8>) -> Option<SpecDecodedImage>;

/// Calls `image::load_from_memory_with_format` (then `DynamicImage::to_rgba8`); trusted to
/// give `image_decode_with_format(data, format)`. Whether a format's decoder can panic on
/// malformed data is not ruled out: no condition on the bytes that would exclude it is given.
#[verifier::external_body]
fn decode_with_format(data: &[u8], format: KnownImageFormat) -> (r: Option<DecodedImage>)
    ensures
        opt_image(r) == image_decode_with_format(data@, format),
{
    let format = match format {
        KnownImageFormat::Png => image::ImageFormat::Png,
        KnownImageFormat::Jpeg => image::ImageFormat::Jpeg,
    };
    let rgba = image::load_from_memory_with_format(data, format).ok()?.to_rgba8();
    Some(DecodedImage { width: rgba.width(), height: rgba.height(), rgba: rgba.into_raw() })
}

/// Calls `image::load_from_memory`, which guesses the format from the first bytes (as
/// `image::guess_format` does) before decoding (then `DynamicImage::to_rgba8`); trusted to give
/// `image_decode_guessed(data)`. As for `decode_with_format`, a decoder panicking on malformed
/// data is not ruled out.
#[verifier::external_body]
fn decode_guessed(data: &[u8]) -> (r: Option<DecodedImage>)
    ensures
        opt_image(r) == image_decode_guessed(data@),
{
    let rgba = image::load_from_memory(data).ok()?.to_rgba8();
    Some(DecodedImage { width: rgba.width(), height: rgba.height(), rgba: rgba.into_raw() })
}

/// The image an embedded image decodes to: as PNG or JPEG when its media type says so, else in
/// the format its bytes tell.
pub open spec fn spec_decode_embedded(data: Seq<u8>, mime: Option<Seq<u8>>) -> Option<SpecDecodedImage> {
    let encoding = match mime {
        Some(m) => if m == spec_png_mime() {
            ImageEncoding::Png
        } else if m == spec_jpeg_mime() {
            ImageEncoding::Jpeg
        } else {
            ImageEncoding::Guess
        },
        None => ImageEncoding::Guess,
    };
    match encoding {
        ImageEncoding::Png => image_decode_with_format(data, KnownImageFormat::Png),
        ImageEncoding::Jpeg => image_decode_with_format(data, KnownImageFormat::Jpeg),
        ImageEncoding::Guess => image_decode_guessed(data),
    }
}

pub open spec fn opt_slice(o: Option<&[u8]>) -> Option<Seq<u8>> {
    match o {
        Some(m) => Some(m@),
        None => None,
    }
}

/// Decodes an image of a glTF document, whose media type, when the document gives one, is
/// `mime`.
pub fn decode_embedded_image(data: &[u8], mime: Option<&[u8]>) -> (r: Result<DecodedImage, GltfError>)
    ensures
        match spec_decode_embedded(data@, opt_slice(mime)) {
            Some(img) => r matches Ok(d) && d.spec_view() == img,
            None => r == Err::<DecodedImage, GltfError>(GltfError::InvalidImage),
        },
{
    let decoded = match ImageEncoding::from_mime(mime) {
        ImageEncoding::Png => decode_with_format(data, KnownImageFormat::Png),
        ImageEncoding::Jpeg => decode_with_format(data, KnownImageFormat::Jpeg),
        ImageEncoding::Guess => decode_guessed(data),
    };
    match decoded {
        Some(img) => Ok(img),
        None => Err(GltfError::InvalidImage),
    }
}

} // verus!
