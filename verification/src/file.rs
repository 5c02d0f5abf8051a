//! File objects: keys, requested attributes, entries and filenode uploads,
//! each in its domain form and in its wire form, with the conversions
//! between the two.
//!
//! A file entry is the one place where the two forms differ in shape. The
//! domain form holds the content as one optional pair of blob and metadata;
//! the wire form holds the two in separate optional fields. Decoding rejects
//! a blob that comes without metadata, and encoding always writes the pair.

use vstd::prelude::*;

use bytes::Bytes;

use crate::blob::bytes_contents;
use crate::errors::WireToApiConversionError;
use crate::ids::{
    HgId, Key, KeyView, Metadata, Parents, UploadToken, UploadTokenView, WireHgId, WireKey,
    WireKeyView, WireParents, WireRevisionstoreMetadata, WireUploadToken, WireUploadTokenView,
};

verus! {

/// The models of a sequence of values, item by item.
pub open spec fn views<T: View>(items: Seq<T>) -> Seq<T::V> {
    items.map_values(|item: T| item@)
}

/// The model of an optional blob: the bytes it holds, if it is there.
pub open spec fn blob_view(blob: Option<Bytes>) -> Option<Seq<u8>> {
    match blob {
        Some(b) => Some(bytes_contents(b)),
        None => None,
    }
}

/// The model of a file's content: the bytes of the blob and the metadata.
pub struct FileContentView {
    pub hg_file_blob: Seq<u8>,
    pub metadata: Metadata,
}

/// The content of a file revision: the blob as the store holds it, and what
/// the store records about it.
#[derive(Debug, PartialEq, Eq)]
pub struct FileContent {
    pub hg_file_blob: Bytes,
    pub metadata: Metadata,
}

impl View for FileContent {
    type V = FileContentView;

    open spec fn view(&self) -> FileContentView {
        FileContentView {
            hg_file_blob: bytes_contents(self.hg_file_blob),
            metadata: self.metadata,
        }
    }
}

impl Clone for FileContent {
    fn clone(&self) -> (copy: FileContent)
        ensures
            copy@ == self@,
    {
        FileContent { hg_file_blob: self.hg_file_blob.clone(), metadata: self.metadata }
    }
}

/// The model of an optional content.
pub open spec fn content_view(content: Option<FileContent>) -> Option<FileContentView> {
    match content {
        Some(c) => Some(c@),
        None => None,
    }
}

/// The model of a file entry.
pub struct FileEntryView {
    pub key: KeyView,
    pub content: Option<FileContentView>,
    pub parents: Parents,
}

/// The model of a file entry's wire form.
pub struct WireFileEntryView {
    pub key: WireKeyView,
    pub data: Option<Seq<u8>>,
    pub parents: WireParents,
    pub metadata: Option<WireRevisionstoreMetadata>,
}

impl FileEntryView {
    /// The wire form of an entry: the content's two parts go to the fields
    /// `data` and `metadata`, which are both present or both absent.
    pub open spec fn wire_form(self) -> WireFileEntryView {
        WireFileEntryView {
            key: self.key.wire_form(),
            data: match self.content {
                Some(c) => Some(c.hg_file_blob),
                None => None,
            },
            parents: self.parents.wire_form(),
            metadata: match self.content {
                Some(c) => Some(c.metadata.wire_form()),
                None => None,
            },
        }
    }
}

impl WireFileEntryView {
    /// Whether the wire value can be read as an entry: a blob must come
    /// with its metadata.
    pub open spec fn is_complete(self) -> bool {
        self.data is Some ==> self.metadata is Some
    }

    /// The entry that a wire value stands for, or the error that names the
    /// missing field. Without a blob the entry has no content, whatever the
    /// metadata field holds.
    pub open spec fn api_form(self) -> Result<FileEntryView, WireToApiConversionError> {
        if self.is_complete() {
            Ok(
                FileEntryView {
                    key: self.key.api_form(),
                    content: match self.data {
                        Some(blob) => Some(
                            FileContentView {
                                hg_file_blob: blob,
                                metadata: self.metadata->0.api_form(),
                            },
                        ),
                        None => None,
                    },
                    parents: self.parents.api_form(),
                },
            )
        } else {
            Err(WireToApiConversionError::CannotPopulateRequiredField("content.metadata"))
        }
    }
}

/// One file revision as the server answers for it.
#[derive(Clone, Debug, PartialEq, Eq)]
pub struct FileEntry {
    pub key: Key,
    pub content: Option<FileContent>,
    pub parents: Parents,
}

/// Wire form of [`FileEntry`].
#[derive(Clone, Debug, PartialEq, Eq)]
pub struct WireFileEntry {
    key: WireKey,
    data: Option<Bytes>,
    parents: WireParents,
    metadata: Option<WireRevisionstoreMetadata>,
}

impl View for FileEntry {
    type V = FileEntryView;

    open spec fn view(&self) -> FileEntryView {
        FileEntryView {
            key: self.key@,
            content: content_view(self.content),
            parents: self.parents,
        }
    }
}

impl View for WireFileEntry {
    type V = WireFileEntryView;

    closed spec fn view(&self) -> WireFileEntryView {
        WireFileEntryView {
            key: self.key@,
            data: blob_view(self.data),
            parents: self.parents,
            metadata: self.metadata,
        }
    }
}

impl FileEntry {
    /// The wire form of the entry. The blob and its metadata are written
    /// together or not at all.
    pub fn to_wire(self) -> (wire: WireFileEntry)
        ensures
            wire@ == self@.wire_form(),
    {
        let (data, metadata) = match self.content {
            Some(c) => (Some(c.hg_file_blob), Some(c.metadata.to_wire())),
            None => (None, None),
        };
        WireFileEntry {
            key: self.key.to_wire(),
            parents: self.parents.to_wire(),
            data,
            metadata,
        }
    }
}

impl WireFileEntry {
    /// A wire entry made of its four fields, each as it would arrive.
    pub fn new(
        key: WireKey,
        data: Option<Bytes>,
        parents: WireParents,
        metadata: Option<WireRevisionstoreMetadata>,
    ) -> (wire: WireFileEntry)
        ensures
            wire@ == (WireFileEntryView {
                key: key@,
                data: blob_view(data),
                parents: parents,
                metadata: metadata,
            }),
    {
        WireFileEntry { key, data, parents, metadata }
    }

    pub fn key(&self) -> (key: &WireKey)
        ensures
            key@ == self@.key,
    {
        &self.key
    }

    pub fn data(&self) -> (data: &Option<Bytes>)
        ensures
            blob_view(*data) == self@.data,
    {
        &self.data
    }

    pub fn parents(&self) -> (parents: WireParents)
        ensures
            parents == self@.parents,
    {
        self.parents
    }

    pub fn metadata(&self) -> (metadata: Option<WireRevisionstoreMetadata>)
        ensures
            metadata == self@.metadata,
    {
        self.metadata
    }

    /// The entry that the wire form stands for.
    ///
    /// Fails with `CannotPopulateRequiredField("content.metadata")` exactly
    /// when the wire value has a blob and no metadata. A wire value without
    /// a blob gives an entry without content.
    pub fn to_api(self) -> (api: Result<FileEntry, WireToApiConversionError>)
        ensures
            match self@.api_form() {
                Ok(entry) => api matches Ok(e) && e@ == entry,
                Err(error) => api == Err::<FileEntry, WireToApiConversionError>(error),
            },
    {
        let content = match self.data {
            Some(hg_file_blob) => {
                match self.metadata {
                    Some(metadata) => Some(
                        FileContent { hg_file_blob, metadata: metadata.to_api()? },
                    ),
                    None => {
                        return Err(
                            WireToApiConversionError::CannotPopulateRequiredField(
                                "content.metadata",
                            ),
                        );
                    },
                }
            },
            None => None,
        };
        Ok(FileEntry { key: self.key.to_api()?, content, parents: self.parents.to_api()? })
    }
}

/// The facets of a file that a client asks for. A facet that is not set is
/// not requested.
#[derive(Clone, Copy, Debug, PartialEq, Eq, Hash)]
pub struct FileAttributes {
    pub content: bool,
}

/// Wire form of [`FileAttributes`].
#[derive(Clone, Copy, Debug, PartialEq, Eq, Hash)]
pub struct WireFileAttributes {
    pub content: bool,
}

impl FileAttributes {
    /// The wire form of a set of facets: one flag for each.
    pub open spec fn wire_form(self) -> WireFileAttributes {
        WireFileAttributes { content: self.content }
    }

    /// The wire form of the value. Never fails.
    pub fn to_wire(self) -> (wire: WireFileAttributes)
        ensures
            wire == self.wire_form(),
    {
        WireFileAttributes { content: self.content }
    }
}

impl WireFileAttributes {
    /// The set of facets that the wire flags stand for.
    pub open spec fn api_form(self) -> FileAttributes {
        FileAttributes { content: self.content }
    }

    /// The value that the wire form stands for. Every wire value of this
    /// type stands for one.
    pub fn to_api(self) -> (api: Result<FileAttributes, WireToApiConversionError>)
        ensures
            api == Ok::<FileAttributes, WireToApiConversionError>(self.api_form()),
    {
        Ok(FileAttributes { content: self.content })
    }
}

/// The model of a file spec: a key and the facets asked of it.
pub struct FileSpecView {
    pub key: KeyView,
    pub attrs: FileAttributes,
}

/// The model of a wire file spec.
pub struct WireFileSpecView {
    pub key: WireKeyView,
    pub attrs: WireFileAttributes,
}

impl FileSpecView {
    /// The wire form of a file spec, field by field.
    pub open spec fn wire_form(self) -> WireFileSpecView {
        WireFileSpecView { key: self.key.wire_form(), attrs: self.attrs.wire_form() }
    }
}

impl WireFileSpecView {
    /// The file spec that a wire value stands for.
    pub open spec fn api_form(self) -> FileSpecView {
        FileSpecView { key: self.key.api_form(), attrs: self.attrs.api_form() }
    }
}

/// A request for chosen facets of one file revision.
#[derive(Clone, Debug, PartialEq, Eq, Hash)]
pub struct FileSpec {
    pub key: Key,
    pub attrs: FileAttributes,
}

/// Wire form of [`FileSpec`].
#[derive(Clone, Debug, PartialEq, Eq, Hash)]
pub struct WireFileSpec {
    pub key: WireKey,
    pub attrs: WireFileAttributes,
}

impl View for FileSpec {
    type V = FileSpecView;

    open spec fn view(&self) -> FileSpecView {
        FileSpecView { key: self.key@, attrs: self.attrs }
    }
}

impl View for WireFileSpec {
    type V = WireFileSpecView;

    open spec fn view(&self) -> WireFileSpecView {
        WireFileSpecView { key: self.key@, attrs: self.attrs }
    }
}

impl FileSpec {
    /// The wire form of the value. Never fails.
    pub fn to_wire(self) -> (wire: WireFileSpec)
        ensures
            wire@ == self@.wire_form(),
    {
        WireFileSpec { key: self.key.to_wire(), attrs: self.attrs.to_wire() }
    }
}

impl WireFileSpec {
    /// The value that the wire form stands for. Every wire value of this
    /// type stands for one.
    pub fn to_api(self) -> (api: Result<FileSpec, WireToApiConversionError>)
        ensures
            api matches Ok(spec) && spec@ == self@.api_form(),
    {
        Ok(FileSpec { key: self.key.to_api()?, attrs: self.attrs.to_api()? })
    }
}

/// The wire forms of a list of keys, in the same order.
fn keys_to_wire(keys: Vec<Key>) -> (wire: Vec<WireKey>)
    ensures
        views(wire@) == views(keys@).map_values(|k: KeyView| k.wire_form()),
{
    let mut wire: Vec<WireKey> = Vec::new();
    for key in it: keys
        invariant
            wire@.len() == it.index(),
            forall|j: int| 0 <= j < wire@.len() ==> wire@[j]@ == it.seq()[j]@.wire_form(),
    {
        wire.push(key.to_wire());
    }
    assert(views(wire@) =~= views(keys@).map_values(|k: KeyView| k.wire_form()));
    wire
}

/// The keys that a list of wire keys stands for, in the same order.
fn keys_to_api(wire: Vec<WireKey>) -> (api: Result<Vec<Key>, WireToApiConversionError>)
    ensures
        api matches Ok(keys) && views(keys@) == views(wire@).map_values(
            |k: WireKeyView| k.api_form(),
        ),
{
    let mut keys: Vec<Key> = Vec::new();
    for key in it: wire
        invariant
            keys@.len() == it.index(),
            forall|j: int| 0 <= j < keys@.len() ==> keys@[j]@ == it.seq()[j]@.api_form(),
    {
        keys.push(key.to_api()?);
    }
    assert(views(keys@) =~= views(wire@).map_values(|k: WireKeyView| k.api_form()));
    Ok(keys)
}

/// The wire forms of a list of file specs, in the same order.
fn specs_to_wire(reqs: Vec<FileSpec>) -> (wire: Vec<WireFileSpec>)
    ensures
        views(wire@) == views(reqs@).map_values(|s: FileSpecView| s.wire_form()),
{
    let mut wire: Vec<WireFileSpec> = Vec::new();
    for spec in it: reqs
        invariant
            wire@.len() == it.index(),
            forall|j: int| 0 <= j < wire@.len() ==> wire@[j]@ == it.seq()[j]@.wire_form(),
    {
        wire.push(spec.to_wire());
    }
    assert(views(wire@) =~= views(reqs@).map_values(|s: FileSpecView| s.wire_form()));
    wire
}

/// The file specs that a list of wire specs stands for, in the same order.
fn specs_to_api(wire: Vec<WireFileSpec>) -> (api: Result<Vec<FileSpec>, WireToApiConversionError>)
    ensures
        api matches Ok(reqs) && views(reqs@) == views(wire@).map_values(
            |s: WireFileSpecView| s.api_form(),
        ),
{
    let mut reqs: Vec<FileSpec> = Vec::new();
    for spec in it: wire
        invariant
            reqs@.len() == it.index(),
            forall|j: int| 0 <= j < reqs@.len() ==> reqs@[j]@ == it.seq()[j]@.api_form(),
    {
        reqs.push(spec.to_api()?);
    }
    assert(views(reqs@) =~= views(wire@).map_values(|s: WireFileSpecView| s.api_form()));
    Ok(reqs)
}

/// The model of a file request: the keys asked for whole, and the specs.
pub struct FileRequestView {
    pub keys: Seq<KeyView>,
    pub reqs: Seq<FileSpecView>,
}

/// The model of a wire file request.
pub struct WireFileRequestView {
    pub keys: Seq<WireKeyView>,
    pub reqs: Seq<WireFileSpecView>,
}

impl FileRequestView {
    /// The wire form of a request: the wire form of each key and of each
    /// spec, in the same order.
    pub open spec fn wire_form(self) -> WireFileRequestView {
        WireFileRequestView {
            keys: self.keys.map_values(|k: KeyView| k.wire_form()),
            reqs: self.reqs.map_values(|s: FileSpecView| s.wire_form()),
        }
    }
}

impl WireFileRequestView {
    /// The request that a wire value stands for.
    pub open spec fn api_form(self) -> FileRequestView {
        FileRequestView {
            keys: self.keys.map_values(|k: WireKeyView| k.api_form()),
            reqs: self.reqs.map_values(|s: WireFileSpecView| s.api_form()),
        }
    }
}

/// A batch request for files: `keys` asks for the content of each key,
/// `reqs` for chosen facets of each.
#[derive(Clone, Debug, PartialEq, Eq, Hash)]
pub struct FileRequest {
    pub keys: Vec<Key>,
    pub reqs: Vec<FileSpec>,
}

/// Wire form of [`FileRequest`].
#[derive(Clone, Debug, PartialEq, Eq, Hash)]
pub struct WireFileRequest {
    pub keys: Vec<WireKey>,
    pub reqs: Vec<WireFileSpec>,
}

impl View for FileRequest {
    type V = FileRequestView;

    open spec fn view(&self) -> FileRequestView {
        FileRequestView { keys: views(self.keys@), reqs: views(self.reqs@) }
    }
}

impl View for WireFileRequest {
    type V = WireFileRequestView;

    open spec fn view(&self) -> WireFileRequestView {
        WireFileRequestView { keys: views(self.keys@), reqs: views(self.reqs@) }
    }
}

impl FileRequest {
    /// The wire form of the value. Never fails.
    pub fn to_wire(self) -> (wire: WireFileRequest)
        ensures
            wire@ == self@.wire_form(),
    {
        WireFileRequest { keys: keys_to_wire(self.keys), reqs: specs_to_wire(self.reqs) }
    }
}

impl WireFileRequest {
    /// The value that the wire form stands for. Every wire value of this
    /// type stands for one.
    pub fn to_api(self) -> (api: Result<FileRequest, WireToApiConversionError>)
        ensures
            api matches Ok(request) && request@ == self@.api_form(),
    {
        Ok(FileRequest { keys: keys_to_api(self.keys)?, reqs: specs_to_api(self.reqs)? })
    }
}

/// The model of a filenode's upload record.
pub struct HgFilenodeDataView {
    pub node_id: HgId,
    pub parents: Parents,
    pub file_content_upload_token: UploadTokenView,
    pub metadata: Seq<u8>,
}

/// The model of a wire filenode upload record.
pub struct WireHgFilenodeDataView {
    pub node_id: WireHgId,
    pub parents: WireParents,
    pub file_content_upload_token: WireUploadTokenView,
    pub metadata: Seq<u8>,
}

impl HgFilenodeDataView {
    /// The wire form of an upload record, field by field.
    pub open spec fn wire_form(self) -> WireHgFilenodeDataView {
        WireHgFilenodeDataView {
            node_id: self.node_id.wire_form(),
            parents: self.parents.wire_form(),
            file_content_upload_token: self.file_content_upload_token.wire_form(),
            metadata: self.metadata,
        }
    }
}

impl WireHgFilenodeDataView {
    /// The upload record that a wire value stands for.
    pub open spec fn api_form(self) -> HgFilenodeDataView {
        HgFilenodeDataView {
            node_id: self.node_id.api_form(),
            parents: self.parents.api_form(),
            file_content_upload_token: self.file_content_upload_token.api_form(),
            metadata: self.metadata,
        }
    }
}

/// A filenode to be stored: its id, its parents, a token for content that
/// was uploaded before, and the raw metadata bytes.
#[derive(Clone, Debug, PartialEq, Eq, Hash)]
pub struct HgFilenodeData {
    pub node_id: HgId,
    pub parents: Parents,
    pub file_content_upload_token: UploadToken,
    pub metadata: Vec<u8>,
}

/// Wire form of [`HgFilenodeData`].
#[derive(Clone, Debug, PartialEq, Eq, Hash)]
pub struct WireHgFilenodeData {
    pub node_id: WireHgId,
    pub parents: WireParents,
    pub file_content_upload_token: WireUploadToken,
    pub metadata: Vec<u8>,
}

impl View for HgFilenodeData {
    type V = HgFilenodeDataView;

    open spec fn view(&self) -> HgFilenodeDataView {
        HgFilenodeDataView {
            node_id: self.node_id,
            parents: self.parents,
            file_content_upload_token: self.file_content_upload_token@,
            metadata: self.metadata@,
        }
    }
}

impl View for WireHgFilenodeData {
    type V = WireHgFilenodeDataView;

    open spec fn view(&self) -> WireHgFilenodeDataView {
        WireHgFilenodeDataView {
            node_id: self.node_id,
            parents: self.parents,
            file_content_upload_token: self.file_content_upload_token@,
            metadata: self.metadata@,
        }
    }
}

impl HgFilenodeData {
    /// The wire form of the value. Never fails.
    pub fn to_wire(self) -> (wire: WireHgFilenodeData)
        ensures
            wire@ == self@.wire_form(),
    {
        WireHgFilenodeData {
            node_id: self.node_id.to_wire(),
            parents: self.parents.to_wire(),
            file_content_upload_token: self.file_content_upload_token.to_wire(),
            metadata: self.metadata,
        }
    }
}

impl WireHgFilenodeData {
    /// The value that the wire form stands for. Every wire value of this
    /// type stands for one.
    pub fn to_api(self) -> (api: Result<HgFilenodeData, WireToApiConversionError>)
        ensures
            api matches Ok(data) && data@ == self@.api_form(),
    {
        Ok(
            HgFilenodeData {
                node_id: self.node_id.to_api()?,
                parents: self.parents.to_api()?,
                file_content_upload_token: self.file_content_upload_token.to_api()?,
                metadata: self.metadata,
            },
        )
    }
}

/// The model of a filenode upload request.
pub struct UploadHgFilenodeRequestView {
    pub data: HgFilenodeDataView,
}

/// The model of a wire filenode upload request.
pub struct WireUploadHgFilenodeRequestView {
    pub data: WireHgFilenodeDataView,
}

impl UploadHgFilenodeRequestView {
    /// The wire form of an upload request.
    pub open spec fn wire_form(self) -> WireUploadHgFilenodeRequestView {
        WireUploadHgFilenodeRequestView { data: self.data.wire_form() }
    }
}

impl WireUploadHgFilenodeRequestView {
    /// The upload request that a wire value stands for.
    pub open spec fn api_form(self) -> UploadHgFilenodeRequestView {
        UploadHgFilenodeRequestView { data: self.data.api_form() }
    }
}

/// A request to store one filenode.
#[derive(Clone, Debug, PartialEq, Eq, Hash)]
pub struct UploadHgFilenodeRequest {
    pub data: HgFilenodeData,
}

/// Wire form of [`UploadHgFilenodeRequest`].
#[derive(Clone, Debug, PartialEq, Eq, Hash)]
pub struct WireUploadHgFilenodeRequest {
    pub data: WireHgFilenodeData,
}

impl View for UploadHgFilenodeRequest {
    type V = UploadHgFilenodeRequestView;

    open spec fn view(&self) -> UploadHgFilenodeRequestView {
        UploadHgFilenodeRequestView { data: self.data@ }
    }
}

impl View for WireUploadHgFilenodeRequest {
    type V = WireUploadHgFilenodeRequestView;

    open spec fn view(&self) -> WireUploadHgFilenodeRequestView {
        WireUploadHgFilenodeRequestView { data: self.data@ }
    }
}

impl UploadHgFilenodeRequest {
    /// The wire form of the value. Never fails.
    pub fn to_wire(self) -> (wire: WireUploadHgFilenodeRequest)
        ensures
            wire@ == self@.wire_form(),
    {
        WireUploadHgFilenodeRequest { data: self.data.to_wire() }
    }
}

impl WireUploadHgFilenodeRequest {
    /// The value that the wire form stands for. Every wire value of this
    /// type stands for one.
    pub fn to_api(self) -> (api: Result<UploadHgFilenodeRequest, WireToApiConversionError>)
        ensures
            api matches Ok(request) && request@ == self@.api_form(),
    {
        Ok(UploadHgFilenodeRequest { data: self.data.to_api()? })
    }
}

/// The model of a filenode upload response.
pub struct UploadHgFilenodeResponseView {
    pub index: usize,
    pub token: UploadTokenView,
}

/// The model of a wire filenode upload response.
pub struct WireUploadHgFilenodeResponseView {
    pub index: usize,
    pub token: WireUploadTokenView,
}

impl UploadHgFilenodeResponseView {
    /// The wire form of an upload response: the same index, and the token's
    /// wire form.
    pub open spec fn wire_form(self) -> WireUploadHgFilenodeResponseView {
        WireUploadHgFilenodeResponseView { index: self.index, token: self.token.wire_form() }
    }
}

impl WireUploadHgFilenodeResponseView {
    /// The upload response that a wire value stands for.
    pub open spec fn api_form(self) -> UploadHgFilenodeResponseView {
        UploadHgFilenodeResponseView { index: self.index, token: self.token.api_form() }
    }
}

/// The answer to one filenode upload. `index` is the position of the request
/// in the batch that it answers: answers may arrive in any order.
#[derive(Clone, Debug, PartialEq, Eq, Hash)]
pub struct UploadHgFilenodeResponse {
    pub index: usize,
    pub token: UploadToken,
}

/// Wire form of [`UploadHgFilenodeResponse`].
#[derive(Clone, Debug, PartialEq, Eq, Hash)]
pub struct WireUploadHgFilenodeResponse {
    pub index: usize,
    pub token: WireUploadToken,
}

impl View for UploadHgFilenodeResponse {
    type V = UploadHgFilenodeResponseView;

    open spec fn view(&self) -> UploadHgFilenodeResponseView {
        UploadHgFilenodeResponseView { index: self.index, token: self.token@ }
    }
}

impl View for WireUploadHgFilenodeResponse {
    type V = WireUploadHgFilenodeResponseView;

    open spec fn view(&self) -> WireUploadHgFilenodeResponseView {
        WireUploadHgFilenodeResponseView { index: self.index, token: self.token@ }
    }
}

impl UploadHgFilenodeResponse {
    /// The wire form of the value. Never fails.
    pub fn to_wire(self) -> (wire: WireUploadHgFilenodeResponse)
        ensures
            wire@ == self@.wire_form(),
    {
        WireUploadHgFilenodeResponse { index: self.index, token: self.token.to_wire() }
    }
}

impl WireUploadHgFilenodeResponse {
    /// The value that the wire form stands for. Every wire value of this
    /// type stands for one.
    pub fn to_api(self) -> (api: Result<UploadHgFilenodeResponse, WireToApiConversionError>)
        ensures
            api matches Ok(response) && response@ == self@.api_form(),
    {
        Ok(UploadHgFilenodeResponse { index: self.index, token: self.token.to_api()? })
    }
}

impl FileAttributes {
    /// The attributes that ask for nothing.
    pub open spec fn blank() -> FileAttributes {
        FileAttributes { content: false }
    }
}

impl Default for FileAttributes {
    fn default() -> (attrs: FileAttributes)
        ensures
            attrs == FileAttributes::blank(),
    {
        FileAttributes { content: false }
    }
}

impl FileSpecView {
    /// The spec that asks nothing of the blank key.
    pub open spec fn blank() -> FileSpecView {
        FileSpecView { key: KeyView::blank(), attrs: FileAttributes::blank() }
    }
}

impl Default for FileSpec {
    fn default() -> (spec: FileSpec)
        ensures
            spec@ == FileSpecView::blank(),
    {
        FileSpec { key: Key::default(), attrs: FileAttributes::default() }
    }
}

impl FileRequestView {
    /// The request that asks for no file.
    pub open spec fn blank() -> FileRequestView {
        FileRequestView { keys: Seq::empty(), reqs: Seq::empty() }
    }
}

impl Default for FileRequest {
    fn default() -> (request: FileRequest)
        ensures
            request@ == FileRequestView::blank(),
    {
        let request = FileRequest { keys: Vec::new(), reqs: Vec::new() };
        assert(request@.keys =~= Seq::empty());
        assert(request@.reqs =~= Seq::empty());
        request
    }
}

impl FileEntryView {
    /// The entry with the blank key, no content and no parents.
    pub open spec fn blank() -> FileEntryView {
        FileEntryView { key: KeyView::blank(), content: None, parents: Parents::NoParent }
    }
}

impl Default for FileEntry {
    fn default() -> (entry: FileEntry)
        ensures
            entry@ == FileEntryView::blank(),
    {
        FileEntry { key: Key::default(), content: None, parents: Parents::default() }
    }
}

impl HgFilenodeDataView {
    /// The upload record with the null id, no parents, the blank token and
    /// no metadata.
    pub open spec fn blank() -> HgFilenodeDataView {
        HgFilenodeDataView {
            node_id: HgId::null_id(),
            parents: Parents::NoParent,
            file_content_upload_token: UploadTokenView::blank(),
            metadata: Seq::empty(),
        }
    }
}

impl Default for HgFilenodeData {
    fn default() -> (data: HgFilenodeData)
        ensures
            data@ == HgFilenodeDataView::blank(),
    {
        HgFilenodeData {
            node_id: HgId::default(),
            parents: Parents::default(),
            file_content_upload_token: UploadToken::default(),
            metadata: Vec::new(),
        }
    }
}

impl UploadHgFilenodeRequestView {
    /// The request that carries the blank upload record.
    pub open spec fn blank() -> UploadHgFilenodeRequestView {
        UploadHgFilenodeRequestView { data: HgFilenodeDataView::blank() }
    }
}

impl Default for UploadHgFilenodeRequest {
    fn default() -> (request: UploadHgFilenodeRequest)
        ensures
            request@ == UploadHgFilenodeRequestView::blank(),
    {
        UploadHgFilenodeRequest { data: HgFilenodeData::default() }
    }
}

impl UploadHgFilenodeResponseView {
    /// The response for position zero with the blank token.
    pub open spec fn blank() -> UploadHgFilenodeResponseView {
        UploadHgFilenodeResponseView { index: 0, token: UploadTokenView::blank() }
    }
}

impl Default for UploadHgFilenodeResponse {
    fn default() -> (response: UploadHgFilenodeResponse)
        ensures
            response@ == UploadHgFilenodeResponseView::blank(),
    {
        UploadHgFilenodeResponse { index: 0, token: UploadToken::default() }
    }
}

/// Every file entry comes back unchanged from its wire form: the wire form
/// of an entry always decodes, and decodes to that entry.
pub proof fn lemma_file_entry_roundtrip(entry: FileEntryView)
    ensures
        entry.wire_form().is_complete(),
        entry.wire_form().api_form() == Ok::<FileEntryView, WireToApiConversionError>(entry),
{
}

/// A wire entry decodes exactly when its blob, if it has one, comes with
/// metadata. A blob without metadata gives the error that names the missing
/// field, and nothing else does.
pub proof fn lemma_file_entry_invariant(wire: WireFileEntryView)
    ensures
        (wire.data is Some && wire.metadata is None) <==> wire.api_form() is Err,
        wire.api_form() is Err ==> wire.api_form() == Err::<
            FileEntryView,
            WireToApiConversionError,
        >(WireToApiConversionError::CannotPopulateRequiredField("content.metadata")),
        wire.api_form() matches Ok(entry) ==> (entry.content is Some <==> wire.data is Some),
{
}

/// A decoded entry with content carries the wire value's own blob and
/// metadata: nothing is made up and nothing is lost.
pub proof fn lemma_file_entry_content_kept(wire: WireFileEntryView)
    requires
        wire.data is Some,
        wire.metadata is Some,
    ensures
        wire.api_form() matches Ok(entry) && entry.content == Some(
            FileContentView {
                hg_file_blob: wire.data->0,
                metadata: wire.metadata->0.api_form(),
            },
        ),
{
}

/// Attributes, specs, requests and filenode uploads come back unchanged
/// from their wire forms.
pub proof fn lemma_file_request_roundtrip(
    attrs: FileAttributes,
    spec: FileSpecView,
    request: FileRequestView,
)
    ensures
        attrs.wire_form().api_form() == attrs,
        spec.wire_form().api_form() == spec,
        request.wire_form().api_form() == request,
{
    assert(request.wire_form().api_form().keys =~= request.keys);
    assert(request.wire_form().api_form().reqs =~= request.reqs);
}

/// Filenode upload records, requests and responses come back unchanged from
/// their wire forms.
pub proof fn lemma_filenode_upload_roundtrip(
    data: HgFilenodeDataView,
    request: UploadHgFilenodeRequestView,
    response: UploadHgFilenodeResponseView,
)
    ensures
        data.wire_form().api_form() == data,
        request.wire_form().api_form() == request,
        response.wire_form().api_form() == response,
{
}

} // verus!
