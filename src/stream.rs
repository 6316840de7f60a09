use vstd::prelude::*;

verus! {

/// The protocol through which a stream is published.
#[derive(Clone, Copy, Debug, PartialEq, Eq, Structural, Hash)]
pub enum Protocol {
    Rtmp,
    HttpFlv,
    Hls,
    WebRTC,
    Rtsp,
}

/// A stream's identity in the registry: its protocol and its path, such as `live/test`.
#[derive(Debug)]
pub struct StreamKey {
    pub protocol: Protocol,
    pub name: String,
}

/// The mathematical value of a stream key.
pub struct StreamKeyView {
    pub protocol: Protocol,
    pub name: Seq<char>,
}

impl View for StreamKey {
    type V = StreamKeyView;

    open spec fn view(&self) -> StreamKeyView {
        StreamKeyView { protocol: self.protocol, name: self.name@ }
    }
}

impl Clone for StreamKey {
    fn clone(&self) -> (r: Self)
        ensures
            r@ == self@,
    {
        StreamKey { protocol: self.protocol, name: self.name.clone() }
    }
}

impl PartialEq for StreamKey {
    fn eq(&self, other: &StreamKey) -> (r: bool) {
        self.protocol == other.protocol && self.name == other.name
    }
}

impl vstd::std_specs::cmp::PartialEqSpecImpl for StreamKey {
    open spec fn obeys_eq_spec() -> bool {
        true
    }

    open spec fn eq_spec(&self, other: &StreamKey) -> bool {
        self@ == other@
    }
}

impl StreamKey {
    pub fn new(protocol: Protocol, name: String) -> (r: StreamKey)
        ensures
            r.protocol == protocol,
            r.name@ == name@,
    {
        StreamKey { protocol, name }
    }

    /// Whether two keys name the same stream.
    pub fn same_as(&self, other: &StreamKey) -> (r: bool)
        ensures
            r == (self@ == other@),
    {
        self.protocol == other.protocol && self.name == other.name
    }
}

/// The index of the first `/` in `s` at or after `i`, or `s.len()` when there is none.
pub open spec fn segment_end(s: Seq<char>, i: int) -> int
    decreases s.len() - i,
{
    if i >= s.len() {
        s.len() as int
    } else if s[i] == '/' {
        i
    } else {
        segment_end(s, i + 1)
    }
}

/// The part of a stream path before its first `/` (the whole path when it has none).
pub open spec fn app_part(s: Seq<char>) -> Seq<char> {
    s.subrange(0, segment_end(s, 0))
}

/// The part of a stream path between its first and second `/` (empty when it has no `/`).
pub open spec fn stream_part(s: Seq<char>) -> Seq<char> {
    let e = segment_end(s, 0);
    if e >= s.len() {
        Seq::empty()
    } else {
        s.subrange(e + 1, segment_end(s, e + 1))
    }
}

pub proof fn lemma_segment_end_bounds(s: Seq<char>, i: int)
    requires
        0 <= i <= s.len(),
    ensures
        i <= segment_end(s, i) <= s.len(),
        segment_end(s, i) < s.len() ==> s[segment_end(s, i)] == '/',
        forall|k: int| i <= k < segment_end(s, i) ==> s[k] != '/',
    decreases s.len() - i,
{
    if i < s.len() && s[i] != '/' {
        lemma_segment_end_bounds(s, i + 1);
    }
}

/// Finds where the segment of `s` that starts at `from` ends.
fn find_segment_end(s: &str, len: usize, from: usize) -> (r: usize)
    requires
        len == s@.len(),
        from <= len,
    ensures
        r as int == segment_end(s@, from as int),
{
    let mut i = from;
    while i < len
        invariant
            len == s@.len(),
            from <= i <= len,
            segment_end(s@, from as int) == segment_end(s@, i as int),
        decreases len - i,
    {
        if s.get_char(i) == '/' {
            return i;
        }
        i = i + 1;
    }
    i
}

/// Splits a stream path `app/stream` into its application and stream names.
pub fn split_stream_name(name: &str) -> (r: (String, String))
    ensures
        r.0@ == app_part(name@),
        r.1@ == stream_part(name@),
{
    let len = name.unicode_len();
    let e = find_segment_end(name, len, 0);
    proof {
        lemma_segment_end_bounds(name@, 0);
    }
    let app = String::from_str(name.substring_char(0, e));
    if e >= len {
        (app, String::new())
    } else {
        let e2 = find_segment_end(name, len, e + 1);
        proof {
            lemma_segment_end_bounds(name@, e as int + 1);
        }
        (app, String::from_str(name.substring_char(e + 1, e2)))
    }
}

/// Whether a stream path holds a `/`.
pub fn has_app_part(name: &str) -> (r: bool)
    ensures
        r == (segment_end(name@, 0) < name@.len()),
{
    let len = name.unicode_len();
    find_segment_end(name, len, 0) < len
}

} // verus!
