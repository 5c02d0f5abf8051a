//! Identifiers shared by commit and file objects, with their wire forms.
//!
//! Every type has a mathematical model. A type that is `Copy` is its own
//! model; a type that owns a string or a byte vector has a view. The codec
//! is defined on the models (`wire_form`, `api_form`), and the executable
//! conversions (`to_wire`, `to_api`) are proved to compute it.

use vstd::prelude::*;

use crate::errors::WireToApiConversionError;

verus! {

/// Twenty zero bytes.
pub open spec fn zero_bytes() -> [u8; 20] {
    vstd::array::spec_array_fill_for_copy_type::<u8, 20>(0u8)
}

/// A 20-byte identity hash of a commit or of a file revision.
#[derive(Clone, Copy, Debug, PartialEq, Eq, Hash)]
pub struct HgId {
    pub bytes: [u8; 20],
}

/// Wire form of [`HgId`].
#[derive(Clone, Copy, Debug, PartialEq, Eq, Hash)]
pub struct WireHgId {
    pub bytes: [u8; 20],
}

impl HgId {
    /// The hash whose bytes are all zero, which stands for "no object".
    pub open spec fn null_id() -> HgId {
        HgId { bytes: zero_bytes() }
    }

    /// The wire form of a hash: the same twenty bytes.
    pub open spec fn wire_form(self) -> WireHgId {
        WireHgId { bytes: self.bytes }
    }

    /// The hash whose bytes are all zero.
    pub fn null() -> (id: HgId)
        ensures
            id == HgId::null_id(),
    {
        HgId { bytes: [0u8; 20] }
    }

    /// The wire form of the value. Never fails.
    pub fn to_wire(self) -> (wire: WireHgId)
        ensures
            wire == self.wire_form(),
    {
        WireHgId { bytes: self.bytes }
    }
}

impl WireHgId {
    /// The hash that a wire hash stands for.
    pub open spec fn api_form(self) -> HgId {
        HgId { bytes: self.bytes }
    }

    /// The value that the wire form stands for. Every wire value of this
    /// type stands for one.
    pub fn to_api(self) -> (api: Result<HgId, WireToApiConversionError>)
        ensures
            api == Ok::<HgId, WireToApiConversionError>(self.api_form()),
    {
        Ok(HgId { bytes: self.bytes })
    }
}

/// The parent revisions of a file revision or of a commit.
#[derive(Clone, Copy, Debug, PartialEq, Eq, Hash)]
pub enum Parents {
    NoParent,
    One(HgId),
    Two(HgId, HgId),
}

/// Wire form of [`Parents`].
#[derive(Clone, Copy, Debug, PartialEq, Eq, Hash)]
pub enum WireParents {
    NoParent,
    One(WireHgId),
    Two(WireHgId, WireHgId),
}

impl Parents {
    /// The wire form of a list of parents: the wire form of each, in order.
    pub open spec fn wire_form(self) -> WireParents {
        match self {
            Parents::NoParent => WireParents::NoParent,
            Parents::One(p) => WireParents::One(p.wire_form()),
            Parents::Two(p, q) => WireParents::Two(p.wire_form(), q.wire_form()),
        }
    }

    /// The wire form of the value. Never fails.
    pub fn to_wire(self) -> (wire: WireParents)
        ensures
            wire == self.wire_form(),
    {
        match self {
            Parents::NoParent => WireParents::NoParent,
            Parents::One(p) => WireParents::One(p.to_wire()),
            Parents::Two(p, q) => WireParents::Two(p.to_wire(), q.to_wire()),
        }
    }
}

impl WireParents {
    /// The parents that a wire value stands for.
    pub open spec fn api_form(self) -> Parents {
        match self {
            WireParents::NoParent => Parents::NoParent,
            WireParents::One(p) => Parents::One(p.api_form()),
            WireParents::Two(p, q) => Parents::Two(p.api_form(), q.api_form()),
        }
    }

    /// The value that the wire form stands for. Every wire value of this
    /// type stands for one.
    pub fn to_api(self) -> (api: Result<Parents, WireToApiConversionError>)
        ensures
            api == Ok::<Parents, WireToApiConversionError>(self.api_form()),
    {
        match self {
            WireParents::NoParent => Ok(Parents::NoParent),
            WireParents::One(p) => Ok(Parents::One(p.to_api()?)),
            WireParents::Two(p, q) => Ok(Parents::Two(p.to_api()?, q.to_api()?)),
        }
    }
}

/// What the store records about a file's content: its size and its flags,
/// each of which may be unknown.
#[derive(Clone, Copy, Debug, PartialEq, Eq, Hash)]
pub struct Metadata {
    pub size: Option<u64>,
    pub flags: Option<u64>,
}

/// Wire form of [`Metadata`].
#[derive(Clone, Copy, Debug, PartialEq, Eq, Hash)]
pub struct WireRevisionstoreMetadata {
    pub size: Option<u64>,
    pub flags: Option<u64>,
}

impl Metadata {
    /// The wire form of a metadata record: the same two fields.
    pub open spec fn wire_form(self) -> WireRevisionstoreMetadata {
        WireRevisionstoreMetadata { size: self.size, flags: self.flags }
    }

    /// The wire form of the value. Never fails.
    pub fn to_wire(self) -> (wire: WireRevisionstoreMetadata)
        ensures
            wire == self.wire_form(),
    {
        WireRevisionstoreMetadata { size: self.size, flags: self.flags }
    }
}

impl WireRevisionstoreMetadata {
    /// The metadata record that a wire value stands for.
    pub open spec fn api_form(self) -> Metadata {
        Metadata { size: self.size, flags: self.flags }
    }

    /// The value that the wire form stands for. Every wire value of this
    /// type stands for one.
    pub fn to_api(self) -> (api: Result<Metadata, WireToApiConversionError>)
        ensures
            api == Ok::<Metadata, WireToApiConversionError>(self.api_form()),
    {
        Ok(Metadata { size: self.size, flags: self.flags })
    }
}

/// The model of a key: the characters of its path and its hash.
pub struct KeyView {
    pub path: Seq<char>,
    pub hgid: HgId,
}

/// The model of a wire key.
pub struct WireKeyView {
    pub path: Seq<char>,
    pub hgid: WireHgId,
}

impl KeyView {
    /// The wire form of a key: the same path, and the hash's wire form.
    pub open spec fn wire_form(self) -> WireKeyView {
        WireKeyView { path: self.path, hgid: self.hgid.wire_form() }
    }
}

impl WireKeyView {
    /// The key that a wire key stands for.
    pub open spec fn api_form(self) -> KeyView {
        KeyView { path: self.path, hgid: self.hgid.api_form() }
    }
}

/// A file revision's key: the file's path in the repository and the hash
/// of the revision. Keys are values: two keys with equal parts are the same
/// key.
#[derive(Clone, Debug, PartialEq, Eq, Hash)]
pub struct Key {
    pub path: String,
    pub hgid: HgId,
}

/// Wire form of [`Key`].
#[derive(Clone, Debug, PartialEq, Eq, Hash)]
pub struct WireKey {
    pub path: String,
    pub hgid: WireHgId,
}

impl View for Key {
    type V = KeyView;

    open spec fn view(&self) -> KeyView {
        KeyView { path: self.path@, hgid: self.hgid }
    }
}

impl View for WireKey {
    type V = WireKeyView;

    open spec fn view(&self) -> WireKeyView {
        WireKeyView { path: self.path@, hgid: self.hgid }
    }
}

impl Key {
    /// The wire form of the value. Never fails.
    pub fn to_wire(self) -> (wire: WireKey)
        ensures
            wire@ == self@.wire_form(),
    {
        WireKey { path: self.path, hgid: self.hgid.to_wire() }
    }
}

impl WireKey {
    /// The value that the wire form stands for. Every wire value of this
    /// type stands for one.
    pub fn to_api(self) -> (api: Result<Key, WireToApiConversionError>)
        ensures
            api matches Ok(key) && key@ == self@.api_form(),
    {
        Ok(Key { path: self.path, hgid: self.hgid.to_api()? })
    }
}

/// The model of an upload token: its payload and its signature.
pub struct UploadTokenView {
    pub data: Seq<u8>,
    pub signature: Seq<u8>,
}

/// The model of a wire upload token.
pub struct WireUploadTokenView {
    pub data: Seq<u8>,
    pub signature: Seq<u8>,
}

impl UploadTokenView {
    /// The wire form of a token: the same payload and signature.
    pub open spec fn wire_form(self) -> WireUploadTokenView {
        WireUploadTokenView { data: self.data, signature: self.signature }
    }
}

impl WireUploadTokenView {
    /// The token that a wire token stands for.
    pub open spec fn api_form(self) -> UploadTokenView {
        UploadTokenView { data: self.data, signature: self.signature }
    }
}

/// An opaque reference to content that was uploaded earlier, signed by the
/// server that issued it.
#[derive(Clone, Debug, PartialEq, Eq, Hash)]
pub struct UploadToken {
    pub data: Vec<u8>,
    pub signature: Vec<u8>,
}

/// Wire form of [`UploadToken`].
#[derive(Clone, Debug, PartialEq, Eq, Hash)]
pub struct WireUploadToken {
    pub data: Vec<u8>,
    pub signature: Vec<u8>,
}

impl View for UploadToken {
    type V = UploadTokenView;

    open spec fn view(&self) -> UploadTokenView {
        UploadTokenView { data: self.data@, signature: self.signature@ }
    }
}

impl View for WireUploadToken {
    type V = WireUploadTokenView;

    open spec fn view(&self) -> WireUploadTokenView {
        WireUploadTokenView { data: self.data@, signature: self.signature@ }
    }
}

impl UploadToken {
    /// The wire form of the value. Never fails.
    pub fn to_wire(self) -> (wire: WireUploadToken)
        ensures
            wire@ == self@.wire_form(),
    {
        WireUploadToken { data: self.data, signature: self.signature }
    }
}

impl WireUploadToken {
    /// The value that the wire form stands for. Every wire value of this
    /// type stands for one.
    pub fn to_api(self) -> (api: Result<UploadToken, WireToApiConversionError>)
        ensures
            api matches Ok(token) && token@ == self@.api_form(),
    {
        Ok(UploadToken { data: self.data, signature: self.signature })
    }
}

impl Default for HgId {
    /// The null hash.
    fn default() -> (id: HgId)
        ensures
            id == HgId::null_id(),
    {
        HgId::null()
    }
}

impl Default for Parents {
    /// No parents.
    fn default() -> (parents: Parents)
        ensures
            parents == Parents::NoParent,
    {
        Parents::NoParent
    }
}

impl Metadata {
    /// The record that knows neither size nor flags.
    pub open spec fn blank() -> Metadata {
        Metadata { size: None, flags: None }
    }
}

impl Default for Metadata {
    fn default() -> (metadata: Metadata)
        ensures
            metadata == Metadata::blank(),
    {
        Metadata { size: None, flags: None }
    }
}

impl KeyView {
    /// The key with the empty path and the null hash.
    pub open spec fn blank() -> KeyView {
        KeyView { path: Seq::empty(), hgid: HgId::null_id() }
    }
}

impl Default for Key {
    fn default() -> (key: Key)
        ensures
            key@ == KeyView::blank(),
    {
        Key { path: String::new(), hgid: HgId::null() }
    }
}

impl UploadTokenView {
    /// The token without payload and signature.
    pub open spec fn blank() -> UploadTokenView {
        UploadTokenView { data: Seq::empty(), signature: Seq::empty() }
    }
}

impl Default for UploadToken {
    fn default() -> (token: UploadToken)
        ensures
            token@ == UploadTokenView::blank(),
    {
        UploadToken { data: Vec::new(), signature: Vec::new() }
    }
}

/// A hash, a list of parents and a metadata record each come back unchanged
/// from their wire form.
pub proof fn lemma_scalar_roundtrip(id: HgId, parents: Parents, metadata: Metadata)
    ensures
        id.wire_form().api_form() == id,
        parents.wire_form().api_form() == parents,
        metadata.wire_form().api_form() == metadata,
{
}

/// A key comes back unchanged from its wire form.
pub proof fn lemma_key_roundtrip(key: KeyView)
    ensures
        key.wire_form().api_form() == key,
{
}

/// An upload token comes back unchanged from its wire form.
pub proof fn lemma_upload_token_roundtrip(token: UploadTokenView)
    ensures
        token.wire_form().api_form() == token,
{
}

} // verus!
