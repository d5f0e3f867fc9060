//! The KStars (Ekos Live) side of the bridge: decoding binary media frames
//! into `new_preview_image` messages, the small JSON messages exchanged with
//! KStars and browsers, and the bookkeeping of the single KStars session.

use vstd::prelude::*;
use vstd::utf8::{decode_utf8, valid_utf8};

use crate::text::{chars_of, push_chars, push_json_str, push_json_string, push_str, string_of, utf8_range, json_quote};
use crate::json::Json;
use crate::wire::{base64, base64_standard, compact_json, json_compact};

verus! {

/// Metadata header size in binary media frames.
pub const METADATA_PACKET: usize = 512;

/// Binary media frames larger than this (metadata + payload) are dropped.
pub const MAX_MEDIA_FRAME: usize = 64 * 1024 * 1024;

// ── Media frames ─────────────────────────────────────────────────────────────

/// Index of the first zero byte of `h` at or after `j`, or `h.len()`.
pub open spec fn nul_from(h: Seq<u8>, j: int) -> int
    decreases h.len() - j,
{
    if j < 0 || j >= h.len() {
        h.len() as int
    } else if h[j] == 0 {
        j
    } else {
        nul_from(h, j + 1)
    }
}

/// The metadata object of a preview message: the metadata text as
/// `serde_json` writes it back when it is JSON, else `{"raw": <text>}`.
pub open spec fn metadata_json(meta: Seq<char>) -> Seq<char> {
    match json_compact(meta) {
        Some(t) => t,
        None => "{\"raw\":"@ + json_quote(meta) + "}"@,
    }
}

/// The `new_preview_image` message for a metadata text and an image payload.
pub open spec fn preview_message(meta: Seq<char>, payload: Seq<u8>) -> Seq<char> {
    "{\"payload\":{\"data\":"@ + json_quote(base64(payload)) + ",\"metadata\":"@ + metadata_json(
        meta,
    ) + "},\"type\":\"new_preview_image\"}"@
}

/// Length of the metadata text of a frame: up to the first zero byte of the
/// 512-byte header.
pub open spec fn metadata_len(data: Seq<u8>) -> int {
    nul_from(data.subrange(0, 512), 0)
}

/// Whether a binary frame yields a preview message.
pub open spec fn frame_decodes(data: Seq<u8>) -> bool {
    &&& data.len() <= MAX_MEDIA_FRAME
    &&& data.len() > METADATA_PACKET
    &&& valid_utf8(data.subrange(0, metadata_len(data)))
}

fn nul_index(data: &[u8]) -> (e: usize)
    requires
        data@.len() >= 512,
    ensures
        e == metadata_len(data@),
        e <= 512,
{
    let ghost h = data@.subrange(0, 512);
    let mut j: usize = 0;
    while j < METADATA_PACKET
        invariant
            j <= 512 <= data@.len(),
            h == data@.subrange(0, 512),
            nul_from(h, 0) == nul_from(h, j as int),
        decreases 512 - j,
    {
        if data[j] == 0 {
            return j;
        }
        j += 1;
    }
    512
}

/// Decodes a binary media frame into a `new_preview_image` JSON message.
///
/// Frame layout: bytes `0..512` hold JSON metadata padded with zero bytes;
/// the rest is the raw image (JPEG or FITS), sent base64-encoded.
pub fn decode_media_frame(data: &[u8]) -> (r: Option<String>)
    ensures
        r is Some <==> frame_decodes(data@),
        r matches Some(s) ==> s@ == preview_message(
            decode_utf8(data@.subrange(0, metadata_len(data@))),
            data@.subrange(512, data@.len() as int),
        ),
{
    if data.len() > MAX_MEDIA_FRAME {
        return None;
    }
    if data.len() <= METADATA_PACKET {
        return None;
    }
    let end = nul_index(data);
    let meta = match utf8_range(data, 0, end) {
        Ok(v) => v,
        Err(_) => {
            return None;
        },
    };
    let meta_str = string_of(meta.as_slice());
    let payload = slice_from(data, METADATA_PACKET);
    let b64 = base64_standard(payload.as_slice());
    let mut out: Vec<char> = Vec::new();
    push_str(&mut out, "{\"payload\":{\"data\":");
    push_json_str(&mut out, b64.as_str());
    push_str(&mut out, ",\"metadata\":");
    let ghost before_meta = out@;
    match compact_json(meta_str.as_str()) {
        Some(t) => {
            push_str(&mut out, t.as_str());
        },
        None => {
            push_str(&mut out, "{\"raw\":");
            push_json_string(&mut out, &meta);
            push_str(&mut out, "}");
        },
    }
    assert(out@ =~= before_meta + metadata_json(meta@));
    push_str(&mut out, "},\"type\":\"new_preview_image\"}");
    assert(out@ =~= preview_message(meta@, payload@));
    Some(string_of(out.as_slice()))
}

/// The bytes `data[lo..]` as a vector.
fn slice_from(data: &[u8], lo: usize) -> (r: Vec<u8>)
    requires
        lo <= data@.len(),
    ensures
        r@ == data@.subrange(lo as int, data@.len() as int),
{
    let mut r: Vec<u8> = Vec::new();
    let mut i = lo;
    while i < data.len()
        invariant
            lo <= i <= data@.len(),
            r@ == data@.subrange(lo as int, i as int),
        decreases data.len() - i,
    {
        r.push(data[i]);
        i += 1;
        assert(r@ =~= data@.subrange(lo as int, i as int));
    }
    r
}

// ── Small messages ───────────────────────────────────────────────────────────

/// The JSON literal for a boolean.
pub open spec fn json_bool(b: bool) -> Seq<char> {
    if b {
        "true"@
    } else {
        "false"@
    }
}

fn push_bool(out: &mut Vec<char>, b: bool)
    ensures
        final(out)@ == old(out)@ + json_bool(b),
{
    if b {
        push_str(out, "true");
    } else {
        push_str(out, "false");
    }
}

/// The handshake that tells KStars a client is ready, so it starts emitting
/// responses.
pub fn set_client_state_msg() -> (r: String)
    ensures
        r@ == "{\"payload\":{\"state\":true},\"type\":\"set_client_state\"}"@,
{
    String::from_str("{\"payload\":{\"state\":true},\"type\":\"set_client_state\"}")
}

/// The `new_connection_state` broadcast, with the server's home directory
/// when one is given.
pub open spec fn connection_state_text(connected: bool, home: Option<Seq<char>>) -> Seq<char> {
    match home {
        Some(h) => "{\"payload\":{\"connected\":"@ + json_bool(connected) + ",\"home_dir\":"@
            + json_quote(h) + "},\"type\":\"new_connection_state\"}"@,
        None => "{\"payload\":{\"connected\":"@ + json_bool(connected)
            + "},\"type\":\"new_connection_state\"}"@,
    }
}

/// Builds the `new_connection_state` broadcast.
pub fn connection_state_msg(connected: bool, home_dir: Option<&str>) -> (r: String)
    ensures
        r@ == connection_state_text(
            connected,
            match home_dir {
                Some(h) => Some(h@),
                None => None,
            },
        ),
{
    let mut out: Vec<char> = Vec::new();
    push_str(&mut out, "{\"payload\":{\"connected\":");
    push_bool(&mut out, connected);
    match home_dir {
        Some(h) => {
            push_str(&mut out, ",\"home_dir\":");
            push_json_str(&mut out, h);
        },
        None => {},
    }
    push_str(&mut out, "},\"type\":\"new_connection_state\"}");
    string_of(out.as_slice())
}

/// Whether a message, as read from JSON (`None` when its text is not JSON),
/// is an object whose `"type"` member is the string `expected`.
pub open spec fn is_message_type(msg: Option<Json>, expected: Seq<char>) -> bool {
    match msg {
        Some(v) => v.at("type"@).str_of() == Some(expected),
        None => false,
    }
}

/// Whether a message read from JSON is of type `expected`.
pub fn message_is_type(msg: &Option<Json>, expected: &str) -> (r: bool)
    ensures
        r == is_message_type(*msg, expected@),
{
    match msg {
        Some(v) => match v.str_at("type") {
            Some(t) => {
                let a = chars_of(t);
                let b = chars_of(expected);
                crate::text::chars_eq(&a, &b)
            },
            None => false,
        },
        None => false,
    }
}

/// Label of a KStars message for the debug log.
pub fn event_type_for_log(msg: &Option<Json>) -> (r: &'static str)
    ensures
        is_message_type(*msg, "new_connection_state"@) ==> r@ == "new_connection_state"@,
        !is_message_type(*msg, "new_connection_state"@) ==> r@ == "unknown"@,
{
    if message_is_type(msg, "new_connection_state") {
        "new_connection_state"
    } else {
        "unknown"
    }
}

// ── Session bookkeeping ──────────────────────────────────────────────────────

/// What the bridge remembers about KStars: whether a message session is
/// attached, and the last `new_connection_state` it sent (replayed to
/// browsers that join later).
#[derive(Clone, Debug)]
pub struct Hub {
    pub kstars_attached: bool,
    pub last_connection_state: Option<String>,
}

/// The greeting a browser gets on connect when no connection state has been
/// seen: the state written out by hand, home directory unescaped.
pub open spec fn fallback_greeting(connected: bool, home: Seq<char>) -> Seq<char> {
    "{\"type\":\"new_connection_state\",\"payload\":{\"connected\":"@ + json_bool(connected)
        + ",\"home_dir\":\""@ + home + "\"}}"@
}

/// Whether a KStars message session asking to attach to `h` is accepted.
pub open spec fn attach_accepted(h: Hub) -> bool {
    !h.kstars_attached
}

/// The hub after a session asked to attach (accepted or not, one is attached).
pub open spec fn after_attach(h: Hub) -> Hub {
    Hub { kstars_attached: true, ..h }
}

/// The hub after the attached session ended.
pub open spec fn after_detach(h: Hub) -> Hub {
    Hub { kstars_attached: false, last_connection_state: None }
}

/// Only one KStars message session is kept: while one is attached every
/// other is refused, and once it has ended the next one is accepted.
pub proof fn law_single_kstars_session(h: Hub)
    ensures
        !attach_accepted(after_attach(h)),
        attach_accepted(after_detach(after_attach(h))),
        after_detach(h).last_connection_state is None,
{
}

impl Hub {
    /// No session, nothing seen.
    pub fn new() -> (h: Hub)
        ensures
            !h.kstars_attached,
            h.last_connection_state is None,
    {
        Hub { kstars_attached: false, last_connection_state: None }
    }

    /// A KStars message session asks to attach. Only one session is kept:
    /// a second one is refused while the first is attached.
    pub fn try_attach(&mut self) -> (accepted: bool)
        ensures
            accepted == attach_accepted(*old(self)),
            *final(self) == after_attach(*old(self)),
    {
        if self.kstars_attached {
            false
        } else {
            self.kstars_attached = true;
            true
        }
    }

    /// The KStars session ended (or its handshake failed): forget the
    /// session and the remembered connection state.
    pub fn detach(&mut self)
        ensures
            *final(self) == after_detach(*old(self)),
    {
        self.kstars_attached = false;
        self.last_connection_state = None;
    }

    /// A text message from KStars, on its way to the browsers, with what it
    /// reads as JSON. A `new_connection_state` message is remembered for late
    /// joiners.
    pub fn observe_kstars_text(&mut self, text: &str, parsed: &Option<Json>)
        ensures
            final(self).kstars_attached == old(self).kstars_attached,
            is_message_type(*parsed, "new_connection_state"@) ==> (final(self).last_connection_state
                matches Some(s) && s@ == text@),
            !is_message_type(*parsed, "new_connection_state"@) ==> final(self).last_connection_state
                == old(self).last_connection_state,
    {
        if message_is_type(parsed, "new_connection_state") {
            self.last_connection_state = Some(String::from_str(text));
        }
    }

    /// Whether a browser command can be forwarded to KStars.
    pub fn can_forward(&self) -> (r: bool)
        ensures
            r == self.kstars_attached,
    {
        self.kstars_attached
    }

    /// The first message a browser gets on connect: the remembered KStars
    /// connection state, else a state built from whether a session is attached.
    pub fn browser_greeting(&self, home: &str) -> (r: String)
        ensures
            match self.last_connection_state {
                Some(s) => r@ == s@,
                None => r@ == fallback_greeting(self.kstars_attached, home@),
            },
    {
        match &self.last_connection_state {
            Some(s) => s.clone(),
            None => {
                let mut out: Vec<char> = Vec::new();
                push_str(&mut out, "{\"type\":\"new_connection_state\",\"payload\":{\"connected\":");
                push_bool(&mut out, self.kstars_attached);
                push_str(&mut out, ",\"home_dir\":\"");
                let hv = chars_of(home);
                push_chars(&mut out, &hv);
                push_str(&mut out, "\"}}");
                string_of(out.as_slice())
            },
        }
    }
}

} // verus!
