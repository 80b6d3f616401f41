//! Request paths and request text for the receiver's control interface, and
//! extraction of the body from a raw HTTP response.
use vstd::prelude::*;

verus! {

/// The text that stands for a switch state in a query string.
pub open spec fn switch_text(on: bool) -> Seq<char> {
    if on {
        "true"@
    } else {
        "false"@
    }
}

fn switch_word(on: bool) -> (r: &'static str)
    ensures
        r@ == switch_text(on),
{
    if on {
        "true"
    } else {
        "false"
    }
}

fn joined(prefix: &str, rest: &str) -> (r: String)
    ensures
        r@ == prefix@ + rest@,
{
    let mut s = String::from_str(prefix);
    s.append(rest);
    s
}

/// Path of the query for the receiver's identity and firmware attributes.
pub fn device_info_path() -> (r: &'static str)
    ensures
        r@ == "/v1/system/getDeviceInfo"@,
{
    "/v1/system/getDeviceInfo"
}

/// Path of the query for the main zone's operating state.
pub fn zone_status_path() -> (r: &'static str)
    ensures
        r@ == "/v1/main/getStatus"@,
{
    "/v1/main/getStatus"
}

/// Path of the query for the main zone's sound programs.
pub fn zone_program_list_path() -> (r: &'static str)
    ensures
        r@ == "/v1/main/getSoundProgramList"@,
{
    "/v1/main/getSoundProgramList"
}

/// Path of the query for the main zone's input signal.
pub fn signal_info_path() -> (r: &'static str)
    ensures
        r@ == "/v1/main/getSignalInfo"@,
{
    "/v1/main/getSignalInfo"
}

/// Path of the command that toggles the main zone's power.
pub fn set_zone_power() -> (r: String)
    ensures
        r@ == "/v1/main/setPower?power=toggle"@,
{
    String::from_str("/v1/main/setPower?power=toggle")
}

/// Path of the command that raises the main zone's volume one step.
pub fn set_volume_up() -> (r: String)
    ensures
        r@ == "/v1/main/setVolume?volume=up"@,
{
    String::from_str("/v1/main/setVolume?volume=up")
}

/// Path of the command that lowers the main zone's volume one step.
pub fn set_volume_down() -> (r: String)
    ensures
        r@ == "/v1/main/setVolume?volume=down"@,
{
    String::from_str("/v1/main/setVolume?volume=down")
}

/// Path of the command that mutes (`true`) or unmutes the main zone.
pub fn set_mute(mute: bool) -> (r: String)
    ensures
        r@ == "/v1/main/setMute?enable="@ + switch_text(mute),
{
    joined("/v1/main/setMute?enable=", switch_word(mute))
}

/// Path of the command that switches pure-direct mode on or off.
pub fn set_pure_direct(direct: bool) -> (r: String)
    ensures
        r@ == "/v1/main/setPureDirect?enable="@ + switch_text(direct),
{
    joined("/v1/main/setPureDirect?enable=", switch_word(direct))
}

/// Path of the command that switches the enhancer on or off.
pub fn set_enhancer(enhancer: bool) -> (r: String)
    ensures
        r@ == "/v1/main/setEnhancer?enable="@ + switch_text(enhancer),
{
    joined("/v1/main/setEnhancer?enable=", switch_word(enhancer))
}

/// Path of the command that switches extra bass on or off.
pub fn set_extra_bass(bass: bool) -> (r: String)
    ensures
        r@ == "/v1/main/setExtraBass?enable="@ + switch_text(bass),
{
    joined("/v1/main/setExtraBass?enable=", switch_word(bass))
}

/// Path of the command that selects a sound program; the name is inserted
/// as given, without escaping.
pub fn set_sound_program(program: &str) -> (r: String)
    ensures
        r@ == "/v1/main/setSoundProgram?program="@ + program@,
{
    joined("/v1/main/setSoundProgram?program=", program)
}

/// The HTTP/1.1 GET request for `path` under the control interface's prefix,
/// asking the device to close the connection after answering.
pub open spec fn request_spec(path: Seq<char>) -> Seq<char> {
    "GET /YamahaExtendedControl"@ + path + " HTTP/1.1\r\nConnection: close\r\n\r\n"@
}

/// The request text to send for `path`.
pub fn request_text(path: &str) -> (r: String)
    ensures
        r@ == request_spec(path@),
{
    let mut s = String::from_str("GET /YamahaExtendedControl");
    s.append(path);
    s.append(" HTTP/1.1\r\nConnection: close\r\n\r\n");
    s
}

/// Whether the blank line that ends an HTTP header block starts at `i`.
pub open spec fn separator_at(b: Seq<u8>, i: int) -> bool {
    0 <= i && i + 4 <= b.len() && b[i] == 13u8 && b[i + 1] == 10u8 && b[i + 2] == 13u8
        && b[i + 3] == 10u8
}

/// The bytes after the first header/body separator, or none when there is no
/// separator.
pub open spec fn body_spec(b: Seq<u8>) -> Seq<u8> {
    if exists|i: int| separator_at(b, i) {
        let i = choose|i: int| separator_at(b, i) && forall|j: int| 0 <= j < i ==> !separator_at(b, j);
        b.skip(i + 4)
    } else {
        Seq::empty()
    }
}

/// The body of a raw HTTP response: the bytes after the first `\r\n\r\n`,
/// or nothing when the response holds no such separator.
pub fn body_bytes(response: &[u8]) -> (r: Vec<u8>)
    ensures
        r@ == body_spec(response@),
        (forall|i: int| !separator_at(response@, i)) ==> r@.len() == 0,
{
    let n = response.len();
    let mut i: usize = 0;
    while i < n && n - i >= 4
        invariant
            n == response@.len(),
            i <= n,
            forall|j: int| 0 <= j < i ==> !separator_at(response@, j),
        decreases n - i,
    {
        if response[i] == 13u8 && response[i + 1] == 10u8 && response[i + 2] == 13u8
            && response[i + 3] == 10u8 {
            let mut body: Vec<u8> = Vec::new();
            let mut k: usize = i + 4;
            while k < n
                invariant
                    n == response@.len(),
                    i + 4 <= k <= n,
                    body@ == response@.subrange(i + 4, k as int),
                decreases n - k,
            {
                body.push(response[k]);
                k = k + 1;
            }
            proof {
                assert(separator_at(response@, i as int));
                let c = choose|c: int|
                    separator_at(response@, c) && forall|j: int| 0 <= j < c ==> !separator_at(response@, j);
                assert(c == i) by {
                    if c < i {
                    } else if c > i {
                        assert(!separator_at(response@, i as int));
                    }
                }
                assert(body@ =~= response@.skip(i + 4));
            }
            return body;
        }
        i = i + 1;
    }
    proof {
        assert forall|j: int| !separator_at(response@, j) by {
            if 0 <= j < i {
            }
        }
    }
    Vec::new()
}

/// The text that a lossy UTF-8 decoding gives for `b`.
pub uninterp spec fn lossy_text(b: Seq<u8>) -> Seq<char>;

/// Whether every byte of `b` is ASCII.
pub open spec fn all_ascii(b: Seq<u8>) -> bool {
    forall|i: int| 0 <= i < b.len() ==> b[i] < 128u8
}

/// The characters that ASCII bytes stand for.
pub open spec fn ascii_chars(b: Seq<u8>) -> Seq<char> {
    b.map_values(|x: u8| x as char)
}

/// Relies on `String::from_utf8_lossy`: the text depends on the bytes alone,
/// no bytes give no text, and valid UTF-8 (here: ASCII) comes back unchanged.
#[verifier::external_body]
fn decode_lossy(b: &[u8]) -> (r: String)
    ensures
        r@ == lossy_text(b@),
        b@.len() == 0 ==> r@.len() == 0,
        all_ascii(b@) ==> r@ == ascii_chars(b@),
{
    String::from_utf8_lossy(b).into_owned()
}

/// The body of a raw HTTP response as text, invalid UTF-8 replaced; empty
/// when the response holds no header/body separator.
pub fn response_body(response: &[u8]) -> (r: String)
    ensures
        r@ == lossy_text(body_spec(response@)),
        all_ascii(body_spec(response@)) ==> r@ == ascii_chars(body_spec(response@)),
        (forall|i: int| !separator_at(response@, i)) ==> r@.len() == 0,
{
    let body = body_bytes(response);
    decode_lossy(body.as_slice())
}

} // verus!
