//! Microsoft Graph bookkeeping: delta items, delta paging and uploads.
//!
//! The HTTP requests and JSON decoding run with the caller, which hands
//! this module the decoded drive items and the HTTP status codes; the
//! module turns drive items into delta items, builds request paths and
//! headers, merges delta pages and splits uploads into chunks.

use vstd::prelude::*;

use crate::text::{decimal, is_prefix, push_decimal, push_str, starts_with, str_eq, suffix_from, to_string};

verus! {

/// Delta query endpoint.
pub const DELTA_PATH: &'static str = "/me/drive/root/delta";

/// Size of one upload chunk: 10 MiB, a multiple of 320 KiB as Graph requires.
pub const CHUNK_SIZE: usize = 10485760;


/// An instant: seconds and nanoseconds since the Unix epoch.
#[derive(Debug, Clone, Copy, PartialEq, Eq)]
pub struct Timestamp {
    /// Whole seconds since the epoch.
    pub secs: i64,
    /// Nanoseconds past the second.
    pub nanos: u32,
}

/// Reference of an item to its parent.
#[derive(Debug, Clone)]
pub struct ParentReference {
    /// Parent item id.
    pub id: Option<String>,
    /// Parent path (`/drive/root:/...`).
    pub path: Option<String>,
}

/// File facet: the item is a file.
#[derive(Debug, Clone)]
pub struct FileFacet {
    /// Content hashes.
    pub hashes: Option<FileHashes>,
}

/// Content hashes of a file.
#[derive(Debug, Clone)]
pub struct FileHashes {
    /// The quickXorHash, base64.
    pub quick_xor_hash: Option<String>,
}

/// A drive item as Graph describes it.
#[derive(Debug, Clone)]
pub struct GraphDriveItem {
    /// Item id.
    pub id: String,
    /// Item name.
    pub name: String,
    /// Size in bytes.
    pub size: Option<u64>,
    /// Last modification time.
    pub modified: Option<Timestamp>,
    /// Parent reference.
    pub parent_reference: Option<ParentReference>,
    /// Present for files.
    pub file: Option<FileFacet>,
    /// Whether a folder facet is present.
    pub is_folder: bool,
    /// Whether a deleted facet is present.
    pub is_deleted: bool,
}

/// A change reported by a delta query.
#[derive(Debug, Clone)]
pub struct DeltaItem {
    /// Item id.
    pub id: String,
    /// Item name.
    pub name: String,
    /// Full path of the item in the drive, when its parent path is known.
    pub path: Option<String>,
    /// Size in bytes.
    pub size: Option<u64>,
    /// quickXorHash of the content.
    pub hash: Option<String>,
    /// Last modification time.
    pub modified: Option<Timestamp>,
    /// Whether the item was deleted.
    pub is_deleted: bool,
    /// Whether the item is a folder.
    pub is_directory: bool,
    /// Parent item id.
    pub parent_id: Option<String>,
}

/// A page of a delta query as Graph sends it.
#[derive(Debug)]
pub struct GraphDeltaResponse {
    /// Changed items.
    pub value: Vec<GraphDriveItem>,
    /// Link to the next page.
    pub next_link: Option<String>,
    /// Link for the next delta query, on the last page.
    pub delta_link: Option<String>,
}

/// Delta query results.
#[derive(Debug)]
pub struct DeltaResponse {
    /// Changed items.
    pub items: Vec<DeltaItem>,
    /// Link to the next page.
    pub next_link: Option<String>,
    /// Link for the next delta query.
    pub delta_link: Option<String>,
}

/// A parent path with the `/drive/root:` prefix taken off (`/` when nothing is left).
pub open spec fn strip_drive_root(p: Seq<char>) -> Seq<char> {
    if is_prefix("/drive/root:"@, p) {
        if p.len() == "/drive/root:"@.len() { "/"@ } else { p.skip("/drive/root:"@.len() as int) }
    } else {
        p
    }
}

/// Full path of an item named `name` under the Graph parent path `parent_path`.
pub open spec fn spec_item_path(parent_path: Seq<char>, name: Seq<char>) -> Seq<char> {
    let stripped = strip_drive_root(parent_path);
    if stripped == "/"@ { "/"@ + name } else { stripped + "/"@ + name }
}

/// Converts Graph delta pages into delta items.
pub struct DeltaParser;

impl DeltaParser {
    /// Full path of an item from its parent path as Graph gives it
    /// (`/drive/root:/Documents` and `report.pdf` give `/Documents/report.pdf`).
    pub fn normalize_parent_path(parent_path: &str, item_name: &str) -> (r: String)
        ensures
            r@ == spec_item_path(parent_path@, item_name@),
    {
        proof { reveal_strlit("/drive/root:"); }
        let stripped = if starts_with(parent_path, "/drive/root:") {
            if parent_path.unicode_len() == 12 {
                to_string("/")
            } else {
                suffix_from(parent_path, 12)
            }
        } else {
            to_string(parent_path)
        };
        let mut out = String::new();
        if str_eq(stripped.as_str(), "/") {
            push_str(&mut out, "/");
            push_str(&mut out, item_name);
        } else {
            push_str(&mut out, stripped.as_str());
            push_str(&mut out, "/");
            push_str(&mut out, item_name);
        }
        proof {
            assert(stripped@ == strip_drive_root(parent_path@));
            assert(out@ =~= spec_item_path(parent_path@, item_name@));
        }
        out
    }

    /// A delta item from a Graph drive item.
    pub fn parse_item(item: GraphDriveItem) -> (r: DeltaItem)
        ensures
            delta_of(r, item),
    {
        let hash = item_hash(&item.file);
        let (path, parent_id) = match &item.parent_reference {
            Some(pr) => {
                let path = match &pr.path {
                    Some(p) => Some(Self::normalize_parent_path(p.as_str(), item.name.as_str())),
                    None => None,
                };
                let parent_id = match &pr.id {
                    Some(id) => Some(id.clone()),
                    None => None,
                };
                (path, parent_id)
            },
            None => (None, None),
        };
        DeltaItem {
            id: item.id,
            name: item.name,
            path,
            size: item.size,
            hash,
            modified: item.modified,
            is_deleted: item.is_deleted,
            is_directory: item.is_folder,
            parent_id,
        }
    }

    /// A delta response from a Graph page: every item converted, in order, links kept.
    pub fn parse_response(response: GraphDeltaResponse) -> (r: DeltaResponse)
        ensures
            r.items@.len() == response.value@.len(),
            forall|i: int| 0 <= i < r.items@.len() ==> delta_of(#[trigger] r.items@[i], response.value@[i]),
            r.next_link == response.next_link,
            r.delta_link == response.delta_link,
    {
        let GraphDeltaResponse { value, next_link, delta_link } = response;
        let ghost v = value@;
        let mut items: Vec<DeltaItem> = Vec::new();
        let mut rest = reversed(value);
        while rest.len() > 0
            invariant
                items@.len() + rest@.len() == v.len(),
                rest@ =~= v.subrange(items@.len() as int, v.len() as int).reverse(),
                forall|i: int| 0 <= i < items@.len() ==> delta_of(#[trigger] items@[i], v[i]),
            decreases rest@.len(),
        {
            let ghost k = items@.len();
            let item = rest.pop().unwrap();
            proof {
                assert(item == v[k as int]) by {
                    assert(v.subrange(k as int, v.len() as int).reverse().last() == v[k as int]);
                }
            }
            items.push(Self::parse_item(item));
            proof {
                assert(rest@ =~= v.subrange(items@.len() as int, v.len() as int).reverse());
            }
        }
        DeltaResponse { items, next_link, delta_link }
    }

    /// The `token` query parameter of a delta link, if the link is a valid URL that has one.
    pub fn extract_delta_token(delta_link: &str) -> (r: Option<String>)
        ensures
            match url_query_pairs(delta_link@) {
                Some(pairs) => opt_view(r) == first_token(pairs),
                None => r is None,
            },
    {
        match query_pairs_of(delta_link) {
            Some(pairs) => find_token(&pairs),
            None => None,
        }
    }
}

/// The elements of `v` in reverse order.
fn reversed<T>(v: Vec<T>) -> (r: Vec<T>)
    ensures
        r@ =~= v@.reverse(),
{
    let ghost orig = v@;
    let mut src = v;
    let mut out: Vec<T> = Vec::new();
    while src.len() > 0
        invariant
            out@ =~= orig.subrange(src@.len() as int, orig.len() as int).reverse(),
            src@ =~= orig.subrange(0, src@.len() as int),
            src@.len() <= orig.len(),
        decreases src@.len(),
    {
        let x = src.pop().unwrap();
        out.push(x);
    }
    out
}

/// The view of an optional string.
pub open spec fn opt_view(o: Option<String>) -> Option<Seq<char>> {
    match o {
        Some(s) => Some(s@),
        None => None,
    }
}

/// The hash of a file facet.
pub open spec fn facet_hash(f: Option<FileFacet>) -> Option<String> {
    match f {
        Some(ff) => match ff.hashes {
            Some(h) => h.quick_xor_hash,
            None => None,
        },
        None => None,
    }
}

/// Whether `d` is the delta item made from drive item `g`.
pub open spec fn delta_of(d: DeltaItem, g: GraphDriveItem) -> bool {
    &&& d.id == g.id
    &&& d.name == g.name
    &&& opt_view(d.path) == match g.parent_reference {
        Some(pr) => match pr.path {
            Some(p) => Some(spec_item_path(p@, g.name@)),
            None => None::<Seq<char>>,
        },
        None => None::<Seq<char>>,
    }
    &&& d.size == g.size
    &&& opt_view(d.hash) == opt_view(facet_hash(g.file))
    &&& d.modified == g.modified
    &&& d.is_deleted == g.is_deleted
    &&& d.is_directory == g.is_folder
    &&& opt_view(d.parent_id) == match g.parent_reference {
        Some(pr) => opt_view(pr.id),
        None => None::<Seq<char>>,
    }
}

/// The quickXorHash of a file facet, if any.
fn item_hash(file: &Option<FileFacet>) -> (r: Option<String>)
    ensures
        opt_view(r) == opt_view(facet_hash(*file)),
{
    match file {
        Some(f) => match &f.hashes {
            Some(h) => match &h.quick_xor_hash {
                Some(q) => Some(q.clone()),
                None => None,
            },
            None => None,
        },
        None => None,
    }
}

/// The query parameters of a URL, in order, as the `url` crate decodes them
/// (`None` when the text is not a valid URL).
pub uninterp spec fn url_query_pairs(link: Seq<char>) -> Option<Seq<(Seq<char>, Seq<char>)>>;

/// `url::Url::parse` followed by `query_pairs`: the decoded query parameters.
#[verifier::external_body]
fn query_pairs_of(link: &str) -> (r: Option<Vec<(String, String)>>)
    ensures
        match r {
            Some(v) => url_query_pairs(link@) == Some(v@.map_values(|p: (String, String)| (p.0@, p.1@))),
            None => url_query_pairs(link@) is None,
        },
{
    url::Url::parse(link).ok().map(|u| u.query_pairs().map(|(k, v)| (k.into_owned(), v.into_owned())).collect())
}

/// Value of the first parameter named `token`.
pub open spec fn first_token(pairs: Seq<(Seq<char>, Seq<char>)>) -> Option<Seq<char>>
    decreases pairs.len(),
{
    if pairs.len() == 0 {
        None
    } else if pairs[0].0 == "token"@ {
        Some(pairs[0].1)
    } else {
        first_token(pairs.drop_first())
    }
}

/// The value of the first `token` parameter among decoded query parameters.
pub fn find_token(pairs: &Vec<(String, String)>) -> (r: Option<String>)
    ensures
        opt_view(r) == first_token(pairs@.map_values(|p: (String, String)| (p.0@, p.1@))),
{
    let ghost ps = pairs@.map_values(|p: (String, String)| (p.0@, p.1@));
    assert(ps.skip(0) =~= ps);
    let mut i: usize = 0;
    while i < pairs.len()
        invariant
            i <= pairs@.len(),
            ps == pairs@.map_values(|p: (String, String)| (p.0@, p.1@)),
            first_token(ps) == first_token(ps.skip(i as int)),
        decreases pairs@.len() - i,
    {
        proof {
            assert(ps.skip(i as int).drop_first() =~= ps.skip(i + 1));
        }
        if str_eq(pairs[i].0.as_str(), "token") {
            return Some(pairs[i].1.clone());
        }
        i = i + 1;
    }
    None
}

/// Path of the first delta request: with `?token=` when a token is known.
pub open spec fn spec_delta_path(token: Option<Seq<char>>) -> Seq<char> {
    match token {
        Some(t) => DELTA_PATH@ + "?token="@ + t,
        None => DELTA_PATH@,
    }
}

/// The path of the first delta request.
pub fn delta_request_path(token: Option<&str>) -> (r: String)
    ensures
        r@ == spec_delta_path(match token { Some(t) => Some(t@), None => None }),
{
    let mut s = to_string(DELTA_PATH);
    match token {
        Some(t) => {
            push_str(&mut s, "?token=");
            push_str(&mut s, t);
            proof { assert(s@ =~= DELTA_PATH@ + "?token="@ + t@); }
        },
        None => {},
    }
    s
}

/// Whether a delta response status means the token expired (410 Gone),
/// which calls for a full resync.
pub fn delta_token_expired(status: u16) -> (r: bool)
    ensures
        r == (status == 410),
{
    status == 410
}

impl DeltaResponse {
    /// Adds the next page: its items after the ones so far, its links in place of the old ones.
    pub fn append_page(&mut self, page: DeltaResponse)
        ensures
            final(self).items@ == old(self).items@ + page.items@,
            final(self).next_link == page.next_link,
            final(self).delta_link == page.delta_link,
    {
        let DeltaResponse { items, next_link, delta_link } = page;
        let mut more = items;
        self.items.append(&mut more);
        self.next_link = next_link;
        self.delta_link = delta_link;
    }
}

// ---------------------------------------------------------------------------
// Uploads
// ---------------------------------------------------------------------------

/// A drive item as an upload response describes it (the time is still text).
#[derive(Debug, Clone)]
pub struct UploadedItem {
    /// Item id.
    pub id: String,
    /// Item name.
    pub name: String,
    /// Size in bytes.
    pub size: Option<u64>,
    /// Last modification time as ISO 8601 text.
    pub last_modified_date_time: Option<String>,
    /// Parent reference.
    pub parent_reference: Option<ParentReference>,
    /// Present for files.
    pub file: Option<FileFacet>,
    /// Whether a folder facet is present.
    pub is_folder: bool,
    /// Whether a deleted facet is present.
    pub is_deleted: bool,
}

/// The instant an ISO 8601 / RFC 3339 text denotes, as `chrono` parses a
/// `DateTime<Utc>` (`None` when it does not parse).
pub uninterp spec fn utc_instant(text: Seq<char>) -> Option<Timestamp>;

/// `str::parse::<DateTime<Utc>>`: the instant a text denotes.
#[verifier::external_body]
fn parse_utc(text: &str) -> (r: Option<Timestamp>)
    ensures
        r == utc_instant(text@),
{
    text.parse::<chrono::DateTime<chrono::Utc>>().ok().map(|d| Timestamp { secs: d.timestamp(), nanos: d.timestamp_subsec_nanos() })
}

/// A delta item from the item an upload returned.
pub fn drive_item_to_delta(item: UploadedItem) -> (r: DeltaItem)
    ensures
        r.id == item.id,
        r.name == item.name,
        opt_view(r.path) == match item.parent_reference {
            Some(pr) => match pr.path {
                Some(p) => Some(spec_item_path(p@, item.name@)),
                None => None::<Seq<char>>,
            },
            None => None::<Seq<char>>,
        },
        r.size == item.size,
        opt_view(r.hash) == opt_view(facet_hash(item.file)),
        r.modified == match item.last_modified_date_time {
            Some(t) => utc_instant(t@),
            None => None,
        },
        r.is_deleted == item.is_deleted,
        r.is_directory == item.is_folder,
        opt_view(r.parent_id) == match item.parent_reference {
            Some(pr) => opt_view(pr.id),
            None => None::<Seq<char>>,
        },
{
    let modified = match &item.last_modified_date_time {
        Some(t) => parse_utc(t.as_str()),
        None => None,
    };
    let g = GraphDriveItem {
        id: item.id,
        name: item.name,
        size: item.size,
        modified,
        parent_reference: item.parent_reference,
        file: item.file,
        is_folder: item.is_folder,
        is_deleted: item.is_deleted,
    };
    DeltaParser::parse_item(g)
}

/// API path addressing `name` in folder `parent_path`, followed by `:/suffix`.
pub open spec fn spec_item_api_path(parent_path: Seq<char>, name: Seq<char>, suffix: Seq<char>) -> Seq<char> {
    if parent_path == "/"@ {
        "/me/drive/root:/"@ + name + ":/"@ + suffix
    } else {
        "/me/drive/root:"@ + parent_path + "/"@ + name + ":/"@ + suffix
    }
}

/// The API path of `name` in `parent_path`, with `suffix` (`content`,
/// `createUploadSession`) after it.
pub fn build_item_path(parent_path: &str, name: &str, suffix: &str) -> (r: String)
    ensures
        r@ == spec_item_api_path(parent_path@, name@, suffix@),
{
    let mut s = String::new();
    if str_eq(parent_path, "/") {
        push_str(&mut s, "/me/drive/root:/");
        push_str(&mut s, name);
    } else {
        push_str(&mut s, "/me/drive/root:");
        push_str(&mut s, parent_path);
        push_str(&mut s, "/");
        push_str(&mut s, name);
    }
    push_str(&mut s, ":/");
    push_str(&mut s, suffix);
    proof { assert(s@ =~= spec_item_api_path(parent_path@, name@, suffix@)); }
    s
}

/// `Content-Range` value for `len` bytes at `offset` of a `total`-byte upload.
pub open spec fn spec_content_range(offset: u64, len: u64, total: u64) -> Seq<char> {
    "bytes "@ + decimal(offset as nat) + "-"@ + decimal((offset + len - 1) as nat) + "/"@ + decimal(total as nat)
}

/// The `Content-Range` header of a chunk.
pub fn content_range(offset: u64, len: u64, total: u64) -> (r: String)
    requires
        len >= 1,
        offset + len - 1 <= u64::MAX,
    ensures
        r@ == spec_content_range(offset, len, total),
{
    let mut s = String::new();
    push_str(&mut s, "bytes ");
    push_decimal(&mut s, offset);
    push_str(&mut s, "-");
    push_decimal(&mut s, offset + (len - 1));
    push_str(&mut s, "/");
    push_decimal(&mut s, total);
    proof { assert(s@ =~= spec_content_range(offset, len, total)); }
    s
}

/// What the status of a chunk upload means.
#[derive(Debug, Clone, Copy, PartialEq, Eq)]
pub enum ChunkStatus {
    /// 200 or 201: the upload is complete and the body is the final item.
    Complete,
    /// Another success (202): the chunk was accepted.
    Accepted,
    /// Not a success: the upload failed.
    Failed,
}

/// Classifies the HTTP status of a chunk upload.
pub fn chunk_status(status: u16) -> (r: ChunkStatus)
    ensures
        (status == 200 || status == 201) ==> r == ChunkStatus::Complete,
        (200 <= status <= 299 && status != 200 && status != 201) ==> r == ChunkStatus::Accepted,
        !(200 <= status <= 299) ==> r == ChunkStatus::Failed,
{
    if 200 <= status && status <= 299 {
        if status == 200 || status == 201 {
            ChunkStatus::Complete
        } else {
            ChunkStatus::Accepted
        }
    } else {
        ChunkStatus::Failed
    }
}

/// Whether `ranges` splits `0 .. total` into consecutive chunks of
/// `CHUNK_SIZE` bytes, the last one possibly shorter.
pub open spec fn chunks_cover(ranges: Seq<(u64, u64)>, total: u64) -> bool {
    &&& forall|i: int| 0 <= i < ranges.len() ==> (#[trigger] ranges[i]).0 < ranges[i].1
    &&& forall|i: int| 0 <= i < ranges.len() ==> (#[trigger] ranges[i]).1 - ranges[i].0 <= CHUNK_SIZE
    &&& forall|i: int| 0 <= i < ranges.len() - 1 ==> (#[trigger] ranges[i]).1 - ranges[i].0 == CHUNK_SIZE
    &&& forall|i: int| 0 <= i < ranges.len() - 1 ==> (#[trigger] ranges[i]).1 == ranges[i + 1].0
    &&& ranges.len() == 0 <==> total == 0
    &&& ranges.len() > 0 ==> ranges[0].0 == 0 && ranges.last().1 == total
}

/// The byte ranges `(start, end)` a large upload sends, in order.
pub fn upload_chunk_ranges(total: u64) -> (r: Vec<(u64, u64)>)
    ensures
        chunks_cover(r@, total),
{
    let mut out: Vec<(u64, u64)> = Vec::new();
    let mut offset: u64 = 0;
    while offset < total
        invariant
            offset <= total,
            out@.len() == 0 <==> offset == 0,
            out@.len() > 0 ==> out@[0].0 == 0 && out@.last().1 == offset,
            forall|i: int| 0 <= i < out@.len() ==> (#[trigger] out@[i]).0 < out@[i].1,
            forall|i: int| 0 <= i < out@.len() ==> (#[trigger] out@[i]).1 - out@[i].0 <= CHUNK_SIZE,
            forall|i: int| 0 <= i < out@.len() - 1 ==> (#[trigger] out@[i]).1 - out@[i].0 == CHUNK_SIZE,
            forall|i: int| 0 <= i < out@.len() - 1 ==> (#[trigger] out@[i]).1 == out@[i + 1].0,
            out@.len() > 0 && offset < total ==> out@.last().1 - out@.last().0 == CHUNK_SIZE,
        decreases total - offset,
    {
        let end = if total - offset > CHUNK_SIZE as u64 { offset + CHUNK_SIZE as u64 } else { total };
        let ghost before = out@;
        out.push((offset, end));
        proof {
            assert forall|i: int| 0 <= i < out@.len() - 1 implies (#[trigger] out@[i]).1 == out@[i + 1].0 by {
                if i < before.len() - 1 {
                    assert(out@[i] == before[i] && out@[i + 1] == before[i + 1]);
                } else {
                    assert(out@[i] == before.last());
                }
            }
            assert forall|i: int| 0 <= i < out@.len() - 1 implies (#[trigger] out@[i]).1 - out@[i].0 == CHUNK_SIZE by {
                if i < before.len() - 1 {
                    assert(out@[i] == before[i]);
                } else {
                    assert(out@[i] == before.last());
                }
            }
        }
        offset = end;
    }
    out
}

// ---------------------------------------------------------------------------
// Item requests
// ---------------------------------------------------------------------------

/// A delta item from the item a metadata request returned (same rules as delta pages).
pub fn metadata_to_delta_item(item: GraphDriveItem) -> (r: DeltaItem)
    ensures
        delta_of(r, item),
{
    DeltaParser::parse_item(item)
}

/// API path of an item by id: `/me/drive/items/<id>`.
pub fn item_api_path(remote_id: &str) -> (r: String)
    ensures
        r@ == "/me/drive/items/"@ + remote_id@,
{
    let mut s = to_string("/me/drive/items/");
    push_str(&mut s, remote_id);
    s
}

/// `Range` header for `length` bytes at `offset`: `bytes=<first>-<last>`.
pub open spec fn spec_range_header(offset: u64, length: u64) -> Seq<char> {
    "bytes="@ + decimal(offset as nat) + "-"@ + decimal((offset + length - 1) as nat)
}

/// The `Range` header of a partial download.
pub fn range_header(offset: u64, length: u64) -> (r: String)
    requires
        length >= 1,
        offset + length - 1 <= u64::MAX,
    ensures
        r@ == spec_range_header(offset, length),
{
    let mut s = to_string("bytes=");
    push_decimal(&mut s, offset);
    push_str(&mut s, "-");
    push_decimal(&mut s, offset + (length - 1));
    proof { assert(s@ =~= spec_range_header(offset, length)); }
    s
}

} // verus!
