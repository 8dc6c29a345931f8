//! The message content model: an ordered sequence of typed segments, as the
//! backend documents them (text, image, at-mention, reply reference,
//! forward node, and the rest).

use crate::json::JsonValue;
use crate::json::arr_text_from;
use crate::json::fld;
use crate::json::fld_str;
use crate::json::fields_inv;
use crate::json::json_text;
use crate::json::lemma_arr_push_from;
use crate::json::obj_of_fields;
use crate::json::opt_fld_bool;
use crate::json::opt_fld_str;
use crate::json::opt_fld_u32;
use crate::json::push_field;
use crate::json::obj_json;
use vstd::prelude::*;

verus! {

/// One typed segment of a message.
///
/// The wire field named `type` is held here as `kind`.
pub enum Segment {
    Text { text: String },
    Face { id: String },
    Image {
        file: String,
        kind: Option<String>,
        url: Option<String>,
        cache: Option<bool>,
        proxy: Option<bool>,
        timeout: Option<u32>,
    },
    Record {
        file: String,
        magic: Option<bool>,
        url: Option<String>,
        cache: Option<bool>,
        proxy: Option<bool>,
        timeout: Option<u32>,
    },
    Video {
        file: String,
        url: Option<String>,
        cache: Option<bool>,
        proxy: Option<bool>,
        timeout: Option<u32>,
    },
    At { qq: String },
    Rps,
    Dice,
    Shake,
    Poke { kind: String, id: String, name: Option<String> },
    Anonymous { ignore: Option<bool> },
    Share { url: String, title: String, content: Option<String>, image: Option<String> },
    Contact { kind: String, id: String },
    Location { lat: String, lon: String, title: Option<String>, content: Option<String> },
    Music {
        kind: String,
        id: Option<String>,
        url: Option<String>,
        audio: Option<String>,
        title: Option<String>,
        content: Option<String>,
        image: Option<String>,
    },
    Reply { id: String },
    Forward { id: String },
    Node {
        id: Option<String>,
        user_id: Option<String>,
        nickname: Option<String>,
        content: Option<Message>,
    },
    Xml { data: String },
    Json { data: String },
}

/// A message: an ordered sequence of segments.
pub struct Message(pub Vec<Segment>);

/// The concatenated text of the plain-text segments of `segs`.
pub open spec fn plain_text_of(segs: Seq<Segment>) -> Seq<char>
    decreases segs.len(),
{
    if segs.len() == 0 {
        Seq::empty()
    } else {
        plain_text_of(segs.drop_last()) + (match segs.last() {
            Segment::Text { text } => text@,
            _ => Seq::<char>::empty(),
        })
    }
}

impl Segment {
    /// A plain image segment pointing at a file or URL.
    pub fn image(file: String) -> (s: Segment)
        ensures
            s == (Segment::Image {
                file,
                kind: None::<String>,
                url: None::<String>,
                cache: None::<bool>,
                proxy: None::<bool>,
                timeout: None::<u32>,
            }),
    {
        Segment::Image { file, kind: None, url: None, cache: None, proxy: None, timeout: None }
    }

    /// A plain text segment.
    pub fn text(text: String) -> (s: Segment)
        ensures
            s == (Segment::Text { text }),
    {
        Segment::Text { text }
    }
}

impl Message {
    /// An empty message.
    pub fn new() -> (m: Message)
        ensures
            m.0@ =~= Seq::<Segment>::empty(),
    {
        Message(Vec::new())
    }

    /// Appends a segment.
    pub fn push(&mut self, segment: Segment)
        ensures
            final(self).0@ == old(self).0@.push(segment),
    {
        self.0.push(segment);
    }

    /// Inserts a segment at `index`, shifting what follows.
    pub fn insert(&mut self, index: usize, segment: Segment)
        requires
            index <= old(self).0@.len(),
        ensures
            final(self).0@ == old(self).0@.insert(index as int, segment),
    {
        self.0.insert(index, segment);
    }

    /// The segments, in order.
    pub fn segments(&self) -> (r: &Vec<Segment>)
        ensures
            r == &self.0,
    {
        &self.0
    }

    /// The segment at `index`.
    pub fn get(&self, index: usize) -> (r: &Segment)
        requires
            index < self.0@.len(),
        ensures
            *r == self.0@[index as int],
    {
        &self.0[index]
    }

    /// Whether the message holds no segment.
    pub fn is_empty(&self) -> (r: bool)
        ensures
            r == (self.0@.len() == 0),
    {
        self.0.len() == 0
    }

    /// The number of segments.
    pub fn len(&self) -> (r: usize)
        ensures
            r == self.0@.len(),
    {
        self.0.len()
    }

    /// The concatenated text of all plain-text segments.
    pub fn plain_text(&self) -> (r: String)
        ensures
            r@ == plain_text_of(self.0@),
    {
        let mut out = String::new();
        let mut i: usize = 0;
        let n = self.0.len();
        while i < n
            invariant
                n == self.0@.len(),
                i <= n,
                out@ == plain_text_of(self.0@.take(i as int)),
            decreases n - i,
        {
            match &self.0[i] {
                Segment::Text { text } => {
                    out.append(text.as_str());
                },
                _ => {},
            }
            proof {
                assert(self.0@.take(i + 1).drop_last() =~= self.0@.take(i as int));
                assert(self.0@.take(i + 1).last() == self.0@[i as int]);
            }
            i = i + 1;
        }
        proof {
            assert(self.0@.take(n as int) =~= self.0@);
        }
        out
    }
}

impl Default for Message {
    /// An empty message.
    fn default() -> (m: Message)
        ensures
            m.0@ =~= Seq::<Segment>::empty(),
    {
        Message::new()
    }
}

impl From<Vec<Segment>> for Message {
    fn from(segments: Vec<Segment>) -> (m: Message) {
        Message(segments)
    }
}

impl vstd::std_specs::convert::FromSpecImpl<Vec<Segment>> for Message {
    open spec fn obeys_from_spec() -> bool {
        true
    }

    open spec fn from_spec(segments: Vec<Segment>) -> Message {
        Message(segments)
    }
}

/// The wire text of a tagged segment: `{"type":tag,"data":{fields}}`.
pub open spec fn tagged(tag: Seq<char>, fields: Seq<char>) -> Seq<char> {
    obj_of_fields(fld_str("type"@, tag) + fld("data"@, obj_of_fields(fields)))
}

/// The wire text of a segment without data: `{"type":tag}`.
pub open spec fn unit_tag(tag: Seq<char>) -> Seq<char> {
    obj_of_fields(fld_str("type"@, tag))
}

/// The exact wire text of one segment.
pub open spec fn segment_text(s: Segment) -> Seq<char>
    decreases s, 2int,
{
    match s {
        Segment::Text { text } => tagged("text"@, fld_str("text"@, text@)),
        Segment::Face { id } => tagged("face"@, fld_str("id"@, id@)),
        Segment::Image { file, kind, url, cache, proxy, timeout } => tagged(
            "image"@,
            fld_str("file"@, file@) + opt_fld_str("type"@, kind) + opt_fld_str("url"@, url)
                + opt_fld_bool("cache"@, cache) + opt_fld_bool("proxy"@, proxy) + opt_fld_u32(
                "timeout"@,
                timeout,
            ),
        ),
        Segment::Record { file, magic, url, cache, proxy, timeout } => tagged(
            "record"@,
            fld_str("file"@, file@) + opt_fld_bool("magic"@, magic) + opt_fld_str("url"@, url)
                + opt_fld_bool("cache"@, cache) + opt_fld_bool("proxy"@, proxy) + opt_fld_u32(
                "timeout"@,
                timeout,
            ),
        ),
        Segment::Video { file, url, cache, proxy, timeout } => tagged(
            "video"@,
            fld_str("file"@, file@) + opt_fld_str("url"@, url) + opt_fld_bool("cache"@, cache)
                + opt_fld_bool("proxy"@, proxy) + opt_fld_u32("timeout"@, timeout),
        ),
        Segment::At { qq } => tagged("at"@, fld_str("qq"@, qq@)),
        Segment::Rps => unit_tag("rps"@),
        Segment::Dice => unit_tag("dice"@),
        Segment::Shake => unit_tag("shake"@),
        Segment::Poke { kind, id, name } => tagged(
            "poke"@,
            fld_str("type"@, kind@) + fld_str("id"@, id@) + opt_fld_str("name"@, name),
        ),
        Segment::Anonymous { ignore } => tagged("anonymous"@, opt_fld_bool("ignore"@, ignore)),
        Segment::Share { url, title, content, image } => tagged(
            "share"@,
            fld_str("url"@, url@) + fld_str("title"@, title@) + opt_fld_str("content"@, content)
                + opt_fld_str("image"@, image),
        ),
        Segment::Contact { kind, id } => tagged(
            "contact"@,
            fld_str("type"@, kind@) + fld_str("id"@, id@),
        ),
        Segment::Location { lat, lon, title, content } => tagged(
            "location"@,
            fld_str("lat"@, lat@) + fld_str("lon"@, lon@) + opt_fld_str("title"@, title)
                + opt_fld_str("content"@, content),
        ),
        Segment::Music { kind, id, url, audio, title, content, image } => tagged(
            "music"@,
            fld_str("type"@, kind@) + opt_fld_str("id"@, id) + opt_fld_str("url"@, url)
                + opt_fld_str("audio"@, audio) + opt_fld_str("title"@, title) + opt_fld_str(
                "content"@,
                content,
            ) + opt_fld_str("image"@, image),
        ),
        Segment::Reply { id } => tagged("reply"@, fld_str("id"@, id@)),
        Segment::Forward { id } => tagged("forward"@, fld_str("id"@, id@)),
        Segment::Node { id, user_id, nickname, content } => tagged(
            "node"@,
            opt_fld_str("id"@, id) + opt_fld_str("user_id"@, user_id) + opt_fld_str(
                "nickname"@,
                nickname,
            ) + (match content {
                Some(m) => fld("content"@, message_text(m)),
                None => Seq::<char>::empty(),
            }),
        ),
        Segment::Xml { data } => tagged("xml"@, fld_str("data"@, data@)),
        Segment::Json { data } => tagged("json"@, fld_str("data"@, data@)),
    }
}

/// The wire texts of the segments of `s` from `i` on, comma separated.
pub open spec fn segs_text_from(s: Seq<Segment>, i: int) -> Seq<char>
    decreases s, s.len() - i,
{
    if i < 0 || i >= s.len() {
        Seq::empty()
    } else if i == s.len() - 1 {
        segment_text(s[i])
    } else {
        segment_text(s[i]) + seq![','] + segs_text_from(s, i + 1)
    }
}

/// The exact wire text of a message: the array of its segments.
pub open spec fn message_text(m: Message) -> Seq<char>
    decreases m, 0int,
{
    seq!['['] + segs_text_from(m.0@, 0) + seq![']']
}

/// Appending a segment appends its text after a comma.
pub proof fn lemma_segs_push_from(s: Seq<Segment>, v: Segment, i: int)
    requires
        0 <= i <= s.len(),
    ensures
        segs_text_from(s.push(v), i) == if i == s.len() {
            segment_text(v)
        } else {
            segs_text_from(s, i) + seq![','] + segment_text(v)
        },
    decreases s.len() - i,
{
    if i == s.len() {
        assert(s.push(v)[i] == v);
    } else {
        lemma_segs_push_from(s, v, i + 1);
        assert(s.push(v)[i] == s[i]);
        if i == s.len() - 1 {
            assert(segs_text_from(s.push(v), i) =~= segs_text_from(s, i) + seq![',']
                + segment_text(v));
        } else {
            assert(segs_text_from(s.push(v), i) =~= segs_text_from(s, i) + seq![',']
                + segment_text(v));
        }
    }
}

/// Wraps data-object pairs into the tagged segment form.
fn tagged_json(tag: &str, ps: Vec<(String, JsonValue)>, fields: Ghost<Seq<char>>) -> (r: JsonValue)
    requires
        fields_inv(ps@, fields@),
    ensures
        json_text(r) == tagged(tag@, fields@),
{
    let data = obj_json(ps, fields);
    let mut outer: Vec<(String, JsonValue)> = Vec::new();
    let g = push_field(&mut outer, "type", JsonValue::Str(tag.to_owned()), Ghost(Seq::empty()));
    let g = push_field(&mut outer, "data", data, g);
    let r = obj_json(outer, g);
    proof {
        assert(g@ =~= fld_str("type"@, tag@) + fld("data"@, obj_of_fields(fields@)));
    }
    r
}

/// A segment of the tag alone, with no data object.
fn unit_tag_json(tag: &str) -> (r: JsonValue)
    ensures
        json_text(r) == unit_tag(tag@),
{
    let mut outer: Vec<(String, JsonValue)> = Vec::new();
    let g = push_field(&mut outer, "type", JsonValue::Str(tag.to_owned()), Ghost(Seq::empty()));
    let r = obj_json(outer, g);
    proof {
        assert(g@ =~= fld_str("type"@, tag@));
    }
    r
}

/// Adds an optional string field.
fn push_opt_str(ps: &mut Vec<(String, JsonValue)>, k: &str, o: &Option<String>, fields: Ghost<
    Seq<char>,
>) -> (r: Ghost<Seq<char>>)
    requires
        fields_inv(old(ps)@, fields@),
    ensures
        fields_inv(final(ps)@, r@),
        r@ == fields@ + opt_fld_str(k@, *o),
{
    match o {
        Some(s) => push_field(ps, k, JsonValue::Str(s.clone()), fields),
        None => {
            proof {
                assert(fields@ + opt_fld_str(k@, *o) =~= fields@);
            }
            fields
        },
    }
}

/// Adds an optional boolean field.
fn push_opt_bool(ps: &mut Vec<(String, JsonValue)>, k: &str, o: &Option<bool>, fields: Ghost<
    Seq<char>,
>) -> (r: Ghost<Seq<char>>)
    requires
        fields_inv(old(ps)@, fields@),
    ensures
        fields_inv(final(ps)@, r@),
        r@ == fields@ + opt_fld_bool(k@, *o),
{
    match o {
        Some(b) => push_field(ps, k, JsonValue::Bool(*b), fields),
        None => {
            proof {
                assert(fields@ + opt_fld_bool(k@, *o) =~= fields@);
            }
            fields
        },
    }
}

/// Adds an optional integer field.
fn push_opt_u32(ps: &mut Vec<(String, JsonValue)>, k: &str, o: &Option<u32>, fields: Ghost<
    Seq<char>,
>) -> (r: Ghost<Seq<char>>)
    requires
        fields_inv(old(ps)@, fields@),
    ensures
        fields_inv(final(ps)@, r@),
        r@ == fields@ + opt_fld_u32(k@, *o),
{
    match o {
        Some(n) => push_field(ps, k, JsonValue::Int(*n as i64), fields),
        None => {
            proof {
                assert(fields@ + opt_fld_u32(k@, *o) =~= fields@);
            }
            fields
        },
    }
}

/// Encodes one segment into the JSON document the wire carries.
#[verifier::rlimit(80)]
pub fn segment_to_json(s: &Segment) -> (r: JsonValue)
    ensures
        json_text(r) == segment_text(*s),
    decreases *s, 2int,
{
    match s {
        Segment::Text { text } => {
            let mut ps: Vec<(String, JsonValue)> = Vec::new();
            let g = push_field(&mut ps, "text", JsonValue::Str(text.clone()), Ghost(Seq::empty()));
            tagged_json("text", ps, g)
        },
        Segment::Face { id } => {
            let mut ps: Vec<(String, JsonValue)> = Vec::new();
            let g = push_field(&mut ps, "id", JsonValue::Str(id.clone()), Ghost(Seq::empty()));
            tagged_json("face", ps, g)
        },
        Segment::Image { file, kind, url, cache, proxy, timeout } => {
            let mut ps: Vec<(String, JsonValue)> = Vec::new();
            let g = push_field(&mut ps, "file", JsonValue::Str(file.clone()), Ghost(Seq::empty()));
            let g = push_opt_str(&mut ps, "type", kind, g);
            let g = push_opt_str(&mut ps, "url", url, g);
            let g = push_opt_bool(&mut ps, "cache", cache, g);
            let g = push_opt_bool(&mut ps, "proxy", proxy, g);
            let g = push_opt_u32(&mut ps, "timeout", timeout, g);
            tagged_json("image", ps, g)
        },
        Segment::Record { file, magic, url, cache, proxy, timeout } => {
            let mut ps: Vec<(String, JsonValue)> = Vec::new();
            let g = push_field(&mut ps, "file", JsonValue::Str(file.clone()), Ghost(Seq::empty()));
            let g = push_opt_bool(&mut ps, "magic", magic, g);
            let g = push_opt_str(&mut ps, "url", url, g);
            let g = push_opt_bool(&mut ps, "cache", cache, g);
            let g = push_opt_bool(&mut ps, "proxy", proxy, g);
            let g = push_opt_u32(&mut ps, "timeout", timeout, g);
            tagged_json("record", ps, g)
        },
        Segment::Video { file, url, cache, proxy, timeout } => {
            let mut ps: Vec<(String, JsonValue)> = Vec::new();
            let g = push_field(&mut ps, "file", JsonValue::Str(file.clone()), Ghost(Seq::empty()));
            let g = push_opt_str(&mut ps, "url", url, g);
            let g = push_opt_bool(&mut ps, "cache", cache, g);
            let g = push_opt_bool(&mut ps, "proxy", proxy, g);
            let g = push_opt_u32(&mut ps, "timeout", timeout, g);
            tagged_json("video", ps, g)
        },
        Segment::At { qq } => {
            let mut ps: Vec<(String, JsonValue)> = Vec::new();
            let g = push_field(&mut ps, "qq", JsonValue::Str(qq.clone()), Ghost(Seq::empty()));
            tagged_json("at", ps, g)
        },
        Segment::Rps => unit_tag_json("rps"),
        Segment::Dice => unit_tag_json("dice"),
        Segment::Shake => unit_tag_json("shake"),
        Segment::Poke { kind, id, name } => {
            let mut ps: Vec<(String, JsonValue)> = Vec::new();
            let g = push_field(&mut ps, "type", JsonValue::Str(kind.clone()), Ghost(Seq::empty()));
            let g = push_field(&mut ps, "id", JsonValue::Str(id.clone()), g);
            let g = push_opt_str(&mut ps, "name", name, g);
            tagged_json("poke", ps, g)
        },
        Segment::Anonymous { ignore } => {
            let mut ps: Vec<(String, JsonValue)> = Vec::new();
            let g = push_opt_bool(&mut ps, "ignore", ignore, Ghost(Seq::empty()));
            tagged_json("anonymous", ps, g)
        },
        Segment::Share { url, title, content, image } => {
            let mut ps: Vec<(String, JsonValue)> = Vec::new();
            let g = push_field(&mut ps, "url", JsonValue::Str(url.clone()), Ghost(Seq::empty()));
            let g = push_field(&mut ps, "title", JsonValue::Str(title.clone()), g);
            let g = push_opt_str(&mut ps, "content", content, g);
            let g = push_opt_str(&mut ps, "image", image, g);
            tagged_json("share", ps, g)
        },
        Segment::Contact { kind, id } => {
            let mut ps: Vec<(String, JsonValue)> = Vec::new();
            let g = push_field(&mut ps, "type", JsonValue::Str(kind.clone()), Ghost(Seq::empty()));
            let g = push_field(&mut ps, "id", JsonValue::Str(id.clone()), g);
            tagged_json("contact", ps, g)
        },
        Segment::Location { lat, lon, title, content } => {
            let mut ps: Vec<(String, JsonValue)> = Vec::new();
            let g = push_field(&mut ps, "lat", JsonValue::Str(lat.clone()), Ghost(Seq::empty()));
            let g = push_field(&mut ps, "lon", JsonValue::Str(lon.clone()), g);
            let g = push_opt_str(&mut ps, "title", title, g);
            let g = push_opt_str(&mut ps, "content", content, g);
            tagged_json("location", ps, g)
        },
        Segment::Music { kind, id, url, audio, title, content, image } => {
            let mut ps: Vec<(String, JsonValue)> = Vec::new();
            let g = push_field(&mut ps, "type", JsonValue::Str(kind.clone()), Ghost(Seq::empty()));
            let g = push_opt_str(&mut ps, "id", id, g);
            let g = push_opt_str(&mut ps, "url", url, g);
            let g = push_opt_str(&mut ps, "audio", audio, g);
            let g = push_opt_str(&mut ps, "title", title, g);
            let g = push_opt_str(&mut ps, "content", content, g);
            let g = push_opt_str(&mut ps, "image", image, g);
            tagged_json("music", ps, g)
        },
        Segment::Reply { id } => {
            let mut ps: Vec<(String, JsonValue)> = Vec::new();
            let g = push_field(&mut ps, "id", JsonValue::Str(id.clone()), Ghost(Seq::empty()));
            tagged_json("reply", ps, g)
        },
        Segment::Forward { id } => {
            let mut ps: Vec<(String, JsonValue)> = Vec::new();
            let g = push_field(&mut ps, "id", JsonValue::Str(id.clone()), Ghost(Seq::empty()));
            tagged_json("forward", ps, g)
        },
        Segment::Node { id, user_id, nickname, content } => {
            let mut ps: Vec<(String, JsonValue)> = Vec::new();
            let g = push_opt_str(&mut ps, "id", id, Ghost(Seq::empty()));
            let g = push_opt_str(&mut ps, "user_id", user_id, g);
            let g = push_opt_str(&mut ps, "nickname", nickname, g);
            let g: Ghost<Seq<char>> = match content {
                Some(m) => {
                    proof {
                        assert(decreases_to!(*s => *content));
                        assert(decreases_to!(*content => *m));
                    }
                    let mj = message_to_json(m);
                    push_field(&mut ps, "content", mj, g)
                },
                None => g,
            };
            tagged_json("node", ps, g)
        },
        Segment::Xml { data } => {
            let mut ps: Vec<(String, JsonValue)> = Vec::new();
            let g = push_field(&mut ps, "data", JsonValue::Str(data.clone()), Ghost(Seq::empty()));
            tagged_json("xml", ps, g)
        },
        Segment::Json { data } => {
            let mut ps: Vec<(String, JsonValue)> = Vec::new();
            let g = push_field(&mut ps, "data", JsonValue::Str(data.clone()), Ghost(Seq::empty()));
            tagged_json("json", ps, g)
        },
    }
}

/// Encodes a message into the JSON array the wire carries.
pub fn message_to_json(m: &Message) -> (r: JsonValue)
    ensures
        json_text(r) == message_text(*m),
    decreases *m, 0int,
{
    let mut items: Vec<JsonValue> = Vec::new();
    let n = m.0.len();
    let mut i: usize = 0;
    while i < n
        invariant
            n == m.0@.len(),
            i <= n,
            items@.len() == i,
            arr_text_from(items@, 0) == segs_text_from(m.0@.take(i as int), 0),
        decreases n - i,
    {
        proof {
            assert(decreases_to!(*m => m.0));
            assert(decreases_to!(m.0 => m.0@));
            assert(decreases_to!(m.0@ => m.0@[i as int]));
        }
        let sj = segment_to_json(&m.0[i]);
        proof {
            lemma_arr_push_from(items@, sj, 0);
            lemma_segs_push_from(m.0@.take(i as int), m.0@[i as int], 0);
            assert(m.0@.take(i + 1) =~= m.0@.take(i as int).push(m.0@[i as int]));
        }
        items.push(sj);
        i = i + 1;
    }
    proof {
        assert(m.0@.take(n as int) =~= m.0@);
    }
    let r = JsonValue::Arr(items);
    assert(json_text(r) =~= message_text(*m));
    r
}

impl Message {
    /// A one-segment message.
    pub fn of_segment(segment: Segment) -> (m: Message)
        ensures
            m.0@ =~= seq![segment],
    {
        let mut v: Vec<Segment> = Vec::new();
        v.push(segment);
        Message(v)
    }

    /// A message of one plain text segment.
    pub fn of_text(text: String) -> (m: Message)
        ensures
            m.0@ =~= seq![Segment::Text { text }],
    {
        Message::of_segment(Segment::Text { text })
    }
}


/// The human-readable line for one segment, as the console shows it.
pub open spec fn seg_display(s: Segment) -> Seq<char> {
    match s {
        Segment::Text { text } => text@,
        Segment::Face { id } => "[face:"@ + id@ + "]"@,
        Segment::Image { file, .. } => "[image:"@ + file@ + "]"@,
        Segment::Record { file, .. } => "[record:"@ + file@ + "]"@,
        Segment::Video { file, .. } => "[video:"@ + file@ + "]"@,
        Segment::At { qq } => if qq@ == "all"@ {
            "[@\u{5168}\u{4f53}\u{6210}\u{5458}]"@
        } else {
            "[@"@ + qq@ + "]"@
        },
        Segment::Rps => "[\u{731c}\u{62f3}]"@,
        Segment::Dice => "[\u{63b7}\u{9ab0}\u{5b50}]"@,
        Segment::Shake => "[\u{6233}\u{4e00}\u{6233}]"@,
        Segment::Poke { name, .. } => match name {
            Some(n) => "["@ + n@ + "]"@,
            None => "[\u{6233}\u{4e00}\u{6233}]"@,
        },
        Segment::Anonymous { .. } => "[\u{533f}\u{540d}]"@,
        Segment::Share { url, title, .. } => "[\u{5206}\u{4eab}:"@ + title@ + " - "@ + url@
            + "]"@,
        Segment::Contact { kind, id } => if kind@ == "qq"@ {
            "[\u{63a8}\u{8350}\u{597d}\u{53cb}:"@ + id@ + "]"@
        } else if kind@ == "group"@ {
            "[\u{63a8}\u{8350}\u{7fa4}:"@ + id@ + "]"@
        } else {
            "[\u{63a8}\u{8350}\u{8054}\u{7cfb}\u{4eba}:"@ + kind@ + ":"@ + id@ + "]"@
        },
        Segment::Location { lat, lon, title, .. } => match title {
            Some(t) => "[\u{4f4d}\u{7f6e}:"@ + t@ + " ("@ + lat@ + ", "@ + lon@ + ")]"@,
            None => "[\u{4f4d}\u{7f6e}:("@ + lat@ + ", "@ + lon@ + ")]"@,
        },
        Segment::Music { kind, title, .. } => match title {
            Some(t) => "[\u{97f3}\u{4e50}:"@ + t@ + "]"@,
            None => "[\u{97f3}\u{4e50}\u{5206}\u{4eab}:"@ + kind@ + "]"@,
        },
        Segment::Reply { id } => "[\u{56de}\u{590d}:"@ + id@ + "]"@,
        Segment::Forward { id } => "[\u{5408}\u{5e76}\u{8f6c}\u{53d1}:"@ + id@ + "]"@,
        Segment::Node { user_id, nickname, .. } => match (user_id, nickname) {
            (Some(u), Some(n)) => "[\u{8f6c}\u{53d1}\u{8282}\u{70b9}:"@ + n@ + "("@ + u@
                + ")]"@,
            _ => "[\u{8f6c}\u{53d1}\u{8282}\u{70b9}]"@,
        },
        Segment::Xml { .. } => "[XML\u{6d88}\u{606f}]"@,
        Segment::Json { .. } => "[JSON\u{6d88}\u{606f}]"@,
    }
}

/// The human-readable line of a whole message: its segments in order.
pub open spec fn msg_display(segs: Seq<Segment>) -> Seq<char>
    decreases segs.len(),
{
    if segs.len() == 0 {
        Seq::empty()
    } else {
        msg_display(segs.drop_last()) + seg_display(segs.last())
    }
}

impl Segment {
    /// The console form of this segment.
    pub fn display_text(&self) -> (r: String)
        ensures
            r@ == seg_display(*self),
    {
        let mut out = String::new();
        match self {
            Segment::Text { text } => {
                out.append(text.as_str());
            },
            Segment::Face { id } => {
                out.append("[face:");
                out.append(id.as_str());
                out.append("]");
            },
            Segment::Image { file, .. } => {
                out.append("[image:");
                out.append(file.as_str());
                out.append("]");
            },
            Segment::Record { file, .. } => {
                out.append("[record:");
                out.append(file.as_str());
                out.append("]");
            },
            Segment::Video { file, .. } => {
                out.append("[video:");
                out.append(file.as_str());
                out.append("]");
            },
            Segment::At { qq } => {
                if crate::event_decode::str_is(qq, "all") {
                    out.append("[@\u{5168}\u{4f53}\u{6210}\u{5458}]");
                } else {
                    out.append("[@");
                    out.append(qq.as_str());
                    out.append("]");
                }
            },
            Segment::Rps => {
                out.append("[\u{731c}\u{62f3}]");
            },
            Segment::Dice => {
                out.append("[\u{63b7}\u{9ab0}\u{5b50}]");
            },
            Segment::Shake => {
                out.append("[\u{6233}\u{4e00}\u{6233}]");
            },
            Segment::Poke { name, .. } => {
                match name {
                    Some(n) => {
                        out.append("[");
                        out.append(n.as_str());
                        out.append("]");
                    },
                    None => {
                        out.append("[\u{6233}\u{4e00}\u{6233}]");
                    },
                }
            },
            Segment::Anonymous { .. } => {
                out.append("[\u{533f}\u{540d}]");
            },
            Segment::Share { url, title, .. } => {
                out.append("[\u{5206}\u{4eab}:");
                out.append(title.as_str());
                out.append(" - ");
                out.append(url.as_str());
                out.append("]");
            },
            Segment::Contact { kind, id } => {
                if crate::event_decode::str_is(kind, "qq") {
                    out.append("[\u{63a8}\u{8350}\u{597d}\u{53cb}:");
                    out.append(id.as_str());
                    out.append("]");
                } else if crate::event_decode::str_is(kind, "group") {
                    out.append("[\u{63a8}\u{8350}\u{7fa4}:");
                    out.append(id.as_str());
                    out.append("]");
                } else {
                    out.append("[\u{63a8}\u{8350}\u{8054}\u{7cfb}\u{4eba}:");
                    out.append(kind.as_str());
                    out.append(":");
                    out.append(id.as_str());
                    out.append("]");
                }
            },
            Segment::Location { lat, lon, title, .. } => {
                match title {
                    Some(t) => {
                        out.append("[\u{4f4d}\u{7f6e}:");
                        out.append(t.as_str());
                        out.append(" (");
                        out.append(lat.as_str());
                        out.append(", ");
                        out.append(lon.as_str());
                        out.append(")]");
                    },
                    None => {
                        out.append("[\u{4f4d}\u{7f6e}:(");
                        out.append(lat.as_str());
                        out.append(", ");
                        out.append(lon.as_str());
                        out.append(")]");
                    },
                }
            },
            Segment::Music { kind, title, .. } => {
                match title {
                    Some(t) => {
                        out.append("[\u{97f3}\u{4e50}:");
                        out.append(t.as_str());
                        out.append("]");
                    },
                    None => {
                        out.append("[\u{97f3}\u{4e50}\u{5206}\u{4eab}:");
                        out.append(kind.as_str());
                        out.append("]");
                    },
                }
            },
            Segment::Reply { id } => {
                out.append("[\u{56de}\u{590d}:");
                out.append(id.as_str());
                out.append("]");
            },
            Segment::Forward { id } => {
                out.append("[\u{5408}\u{5e76}\u{8f6c}\u{53d1}:");
                out.append(id.as_str());
                out.append("]");
            },
            Segment::Node { user_id, nickname, .. } => {
                match (user_id, nickname) {
                    (Some(u), Some(n)) => {
                        out.append("[\u{8f6c}\u{53d1}\u{8282}\u{70b9}:");
                        out.append(n.as_str());
                        out.append("(");
                        out.append(u.as_str());
                        out.append(")]");
                    },
                    _ => {
                        out.append("[\u{8f6c}\u{53d1}\u{8282}\u{70b9}]");
                    },
                }
            },
            Segment::Xml { .. } => {
                out.append("[XML\u{6d88}\u{606f}]");
            },
            Segment::Json { .. } => {
                out.append("[JSON\u{6d88}\u{606f}]");
            },
        }
        out
    }
}

impl Message {
    /// The console form of this message.
    pub fn display_text(&self) -> (r: String)
        ensures
            r@ == msg_display(self.0@),
    {
        let mut out = String::new();
        let n = self.0.len();
        let mut i: usize = 0;
        while i < n
            invariant
                n == self.0@.len(),
                i <= n,
                out@ == msg_display(self.0@.take(i as int)),
            decreases n - i,
        {
            let part = self.0[i].display_text();
            out.append(part.as_str());
            proof {
                assert(self.0@.take(i + 1).drop_last() =~= self.0@.take(i as int));
                assert(self.0@.take(i + 1).last() == self.0@[i as int]);
            }
            i = i + 1;
        }
        proof {
            assert(self.0@.take(n as int) =~= self.0@);
        }
        out
    }
}

} // verus!
