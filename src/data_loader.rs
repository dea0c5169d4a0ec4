use vstd::prelude::*;
use vstd::utf8::encode_utf8;

use rustc_serialize::base64::FromBase64;

use crate::location::Url;

verus! {

/// The bytes that the base64 text `s` encodes, or nothing when it is not
/// base64.
pub uninterp spec fn base64_decoded(s: Seq<char>) -> Option<Seq<u8>>;

/// The type, the subtype and the `charset` parameter of the media type
/// written `s`, or nothing when `s` is not a media type.
pub uninterp spec fn media_type_of(s: Seq<char>) -> Option<(Seq<char>, Seq<char>, Option<Seq<char>>)>;

/// Relies on rustc_serialize's `FromBase64::from_base64` on `str`: the bytes
/// the text encodes, or nothing when it holds a byte outside the alphabet or
/// has an invalid length.
#[verifier::external_body]
fn decode_base64(s: &str) -> (r: Option<Vec<u8>>)
    ensures
        match r {
            Some(b) => base64_decoded(s@) == Some(b@),
            None => base64_decoded(s@) is None,
        },
{
    s.from_base64().ok()
}

/// Relies on mime's `FromStr for Mime`, with `Mime::type_`, `Mime::subtype`
/// and `Mime::get_param(CHARSET)`: the parts of a media type, or nothing
/// when the text is not one.
#[verifier::external_body]
fn parse_media_type(s: &str) -> (r: Option<(String, String, Option<String>)>)
    ensures
        r.is_some() == media_type_of(s@).is_some(),
        r.is_some() ==> media_type_of(s@) == Some(media_view(r.unwrap())),
{
    match s.parse::<mime::Mime>() {
        Ok(m) => {
            let charset = m.get_param(mime::CHARSET).map(|c| c.as_str().to_string());
            Some((m.type_().as_str().to_string(), m.subtype().as_str().to_string(), charset))
        },
        Err(_) => None,
    }
}

/// The parts of a parsed media type as character sequences.
pub open spec fn media_view(m: (String, String, Option<String>)) -> (
    Seq<char>,
    Seq<char>,
    Option<Seq<char>>,
) {
    (
        m.0@,
        m.1@,
        match m.2 {
            Some(c) => Some(c@),
            None => None,
        },
    )
}

/// What a loader learns of a resource before its bytes.
#[derive(Debug, PartialEq, Eq)]
pub struct Metadata {
    pub final_url: Url,
    /// Type and subtype of the content.
    pub content_type: Option<(String, String)>,
    pub charset: Option<String>,
}

impl Metadata {
    pub open spec fn content_type_view(&self) -> Option<(Seq<char>, Seq<char>)> {
        match self.content_type {
            Some(p) => Some((p.0@, p.1@)),
            None => None,
        }
    }

    pub open spec fn charset_view(&self) -> Option<Seq<char>> {
        match self.charset {
            Some(c) => Some(c@),
            None => None,
        }
    }
}

/// One event of a load, after its metadata.
#[derive(Debug, PartialEq, Eq)]
pub enum ProgressMsg {
    /// A chunk of the resource's bytes.
    Payload(Vec<u8>),
    /// The load is over, successfully or with the reason it failed.
    Done(Result<(), String>),
}

impl ProgressMsg {
    pub open spec fn is_payload(&self, bytes: Seq<u8>) -> bool {
        match self {
            ProgressMsg::Payload(b) => b@ == bytes,
            _ => false,
        }
    }

    pub open spec fn is_done_ok(&self) -> bool {
        match self {
            ProgressMsg::Done(Ok(_)) => true,
            _ => false,
        }
    }

    pub open spec fn is_done_err(&self, reason: Seq<char>) -> bool {
        match self {
            ProgressMsg::Done(Err(e)) => e@ == reason,
            _ => false,
        }
    }
}

/// The metadata of a load, then its progress events in order.
#[derive(Debug, PartialEq, Eq)]
pub struct LoadResponse {
    pub metadata: Metadata,
    pub progress: Vec<ProgressMsg>,
}

/// Whether `i` is the position of the first comma of `p`.
pub open spec fn first_comma(p: Seq<char>, i: int) -> bool {
    &&& 0 <= i < p.len()
    &&& p[i] == ','
    &&& forall|k: int| 0 <= k < i ==> p[k] != ','
}

/// The suffix that marks base64 content in a data URL.
pub open spec fn base64_marker() -> Seq<char> {
    seq![';', 'b', 'a', 's', 'e', '6', '4']
}

/// Whether the content-type part `ct` of a data URL ends in the base64
/// marker.
pub open spec fn base64_marked(ct: Seq<char>) -> bool {
    ct.len() >= 7 && ct.subrange(ct.len() - 7, ct.len() as int) == base64_marker()
}

/// The media type written in the content-type part `ct`, without the
/// base64 marker.
pub open spec fn media_part(ct: Seq<char>) -> Seq<char> {
    if base64_marked(ct) {
        ct.subrange(0, ct.len() - 7)
    } else {
        ct
    }
}

/// The type and subtype of a parsed media type.
pub open spec fn content_type_of(m: Option<(Seq<char>, Seq<char>, Option<Seq<char>>)>) -> Option<(Seq<char>, Seq<char>)> {
    match m {
        Some(t) => Some((t.0, t.1)),
        None => None,
    }
}

/// The charset parameter of a parsed media type.
pub open spec fn charset_of(m: Option<(Seq<char>, Seq<char>, Option<Seq<char>>)>) -> Option<Seq<char>> {
    match m {
        Some(t) => t.2,
        None => None,
    }
}

/// The progress events for the payload `data` of a data URL.
pub open spec fn data_progress(v: Seq<ProgressMsg>, data: Seq<char>, base64: bool) -> bool {
    if base64 {
        match base64_decoded(data) {
            Some(bytes) => v.len() == 2 && v[0].is_payload(bytes) && v[1].is_done_ok(),
            None => v.len() == 1 && v[0].is_done_err("non-base64 data uri"@),
        }
    } else {
        v.len() == 2 && v[0].is_payload(encode_utf8(data)) && v[1].is_done_ok()
    }
}

/// Splits the path of a data URL at its first comma into the content-type
/// part and the payload; nothing when there is no comma.
pub fn split_data_path(path: &str) -> (r: Option<(String, String)>)
    ensures
        r is None <==> !path@.contains(','),
        match r {
            Some(p) => exists|i: int|
                first_comma(path@, i) && p.0@ == path@.subrange(0, i) && p.1@ == path@.subrange(
                    i + 1,
                    path@.len() as int,
                ),
            None => true,
        },
{
    let n = path.unicode_len();
    let mut i: usize = 0;
    while i < n
        invariant
            n == path@.len(),
            i <= n,
            forall|k: int| 0 <= k < i ==> path@[k] != ',',
        decreases n - i,
    {
        if path.get_char(i) == ',' {
            let head = path.substring_char(0, i).to_owned();
            let tail = path.substring_char(i + 1, n).to_owned();
            proof {
                assert(first_comma(path@, i as int));
            }
            return Some((head, tail));
        }
        i = i + 1;
    }
    proof {
        assert forall|k: int| 0 <= k < path@.len() implies path@[k] != ',' by {}
    }
    None
}

/// Takes the base64 marker off the content-type part `ct` of a data URL, and
/// tells whether it was there.
pub fn strip_base64_marker(ct: &str) -> (r: (String, bool))
    ensures
        r.0@ == media_part(ct@),
        r.1 == base64_marked(ct@),
{
    let n = ct.unicode_len();
    if n >= 7 && ct.get_char(n - 7) == ';' && ct.get_char(n - 6) == 'b' && ct.get_char(n - 5) == 'a'
        && ct.get_char(n - 4) == 's' && ct.get_char(n - 3) == 'e' && ct.get_char(n - 2) == '6'
        && ct.get_char(n - 1) == '4' {
        proof {
            assert(ct@.subrange(n - 7, n as int) =~= base64_marker());
        }
        (ct.substring_char(0, n - 7).to_owned(), true)
    } else {
        proof {
            if n >= 7 {
                let tail = ct@.subrange(n - 7, n as int);
                if tail == base64_marker() {
                    assert(tail[0] == ct@[n - 7]);
                    assert(tail[1] == ct@[n - 6]);
                    assert(tail[2] == ct@[n - 5]);
                    assert(tail[3] == ct@[n - 4]);
                    assert(tail[4] == ct@[n - 3]);
                    assert(tail[5] == ct@[n - 2]);
                    assert(tail[6] == ct@[n - 1]);
                }
            }
        }
        (ct.to_owned(), false)
    }
}

/// The metadata of a load of `url` whose media type parsed to `media`: the
/// type and subtype, and the charset parameter, when there is one.
pub fn metadata_for(url: Url, media: Option<(String, String, Option<String>)>) -> (r: Metadata)
    ensures
        r.final_url == url,
        r.content_type_view() == content_type_of(
            match media {
                Some(m) => Some(media_view(m)),
                None => None,
            },
        ),
        r.charset_view() == charset_of(
            match media {
                Some(m) => Some(media_view(m)),
                None => None,
            },
        ),
{
    match media {
        Some((type_, subtype, charset)) => Metadata {
            final_url: url,
            content_type: Some((type_, subtype)),
            charset,
        },
        None => Metadata { final_url: url, content_type: None, charset: None },
    }
}

/// The progress events of a base64 payload that decoded to `decoded`: the
/// bytes and a success, or a failure when it did not decode.
pub fn base64_progress(decoded: Option<Vec<u8>>) -> (r: Vec<ProgressMsg>)
    ensures
        match decoded {
            Some(b) => r@.len() == 2 && r@[0].is_payload(b@) && r@[1].is_done_ok(),
            None => r@.len() == 1 && r@[0].is_done_err("non-base64 data uri"@),
        },
{
    let mut v: Vec<ProgressMsg> = Vec::new();
    match decoded {
        Some(bytes) => {
            v.push(ProgressMsg::Payload(bytes));
            v.push(ProgressMsg::Done(Ok(())));
        },
        None => {
            v.push(ProgressMsg::Done(Err("non-base64 data uri".to_owned())));
        },
    }
    v
}

/// Loads a `data:` URL: its metadata from the media type before the first
/// comma, then its payload, base64-decoded when the media type ends in the
/// base64 marker, then a completion event. A path without a comma gives a
/// single failure event.
pub fn load(url: &Url) -> (r: LoadResponse)
    requires
        url.scheme@ == "data"@,
    ensures
        r.metadata.final_url == *url,
        !url.path@.contains(',') ==> {
            &&& r.metadata.content_type is None
            &&& r.metadata.charset is None
            &&& r.progress@.len() == 1
            &&& r.progress@[0].is_done_err("invalid data uri"@)
        },
        forall|i: int|
            #![trigger first_comma(url.path@, i)]
            first_comma(url.path@, i) ==> {
                let ct = url.path@.subrange(0, i);
                let data = url.path@.subrange(i + 1, url.path@.len() as int);
                &&& r.metadata.content_type_view() == content_type_of(media_type_of(media_part(ct)))
                &&& r.metadata.charset_view() == charset_of(media_type_of(media_part(ct)))
                &&& data_progress(r.progress@, data, base64_marked(ct))
            },
{
    match split_data_path(url.path.as_str()) {
        None => {
            let metadata = Metadata { final_url: url.clone(), content_type: None, charset: None };
            let mut progress: Vec<ProgressMsg> = Vec::new();
            progress.push(ProgressMsg::Done(Err("invalid data uri".to_owned())));
            LoadResponse { metadata, progress }
        },
        Some((ct, data)) => {
            let (media, is_base64) = strip_base64_marker(ct.as_str());
            let metadata = metadata_for(url.clone(), parse_media_type(media.as_str()));
            let progress = if is_base64 {
                base64_progress(decode_base64(data.as_str()))
            } else {
                let mut v: Vec<ProgressMsg> = Vec::new();
                v.push(ProgressMsg::Payload(data.as_str().as_bytes_vec()));
                v.push(ProgressMsg::Done(Ok(())));
                v
            };
            proof {
                assert forall|i: int| first_comma(url.path@, i) implies {
                    &&& ct@ == url.path@.subrange(0, i)
                    &&& data@ == url.path@.subrange(i + 1, url.path@.len() as int)
                } by {
                    let j = choose|j: int|
                        first_comma(url.path@, j) && ct@ == url.path@.subrange(0, j) && data@
                            == url.path@.subrange(j + 1, url.path@.len() as int);
                    if i < j {
                        assert(url.path@[i] != ',');
                    } else if j < i {
                        assert(url.path@[j] != ',');
                    }
                }
            }
            LoadResponse { metadata, progress }
        },
    }
}

} // verus!
