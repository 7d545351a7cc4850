//! Text of the RPC payloads that the buttons send to Discord.

use vstd::prelude::*;
use vstd::string::*;

verus! {

#[verifier::external_type_specification]
#[verifier::external_body]
pub struct ExJsonError(serde_json::Error);

/// A lower-case hexadecimal digit.
pub open spec fn hex_digit(d: nat) -> char {
    seq!['0', '1', '2', '3', '4', '5', '6', '7', '8', '9', 'a', 'b', 'c', 'd', 'e', 'f'][d as int]
}

/// How one character is written inside a JSON string: the quote and the
/// backslash behind a backslash, the control characters that have a short
/// escape with it, the other control characters as `\u00XX`, and every
/// other character as it is.
pub open spec fn json_char_escape(c: char) -> Seq<char> {
    if c == '"' {
        seq!['\\', '"']
    } else if c == '\\' {
        seq!['\\', '\\']
    } else if c == '\u{8}' {
        seq!['\\', 'b']
    } else if c == '\t' {
        seq!['\\', 't']
    } else if c == '\n' {
        seq!['\\', 'n']
    } else if c == '\u{c}' {
        seq!['\\', 'f']
    } else if c == '\r' {
        seq!['\\', 'r']
    } else if (c as int) < 0x20 {
        seq!['\\', 'u', '0', '0', hex_digit((c as nat) / 16), hex_digit((c as nat) % 16)]
    } else {
        seq![c]
    }
}

/// The characters of `s`, each written as `json_char_escape` says.
pub open spec fn json_escape(s: Seq<char>) -> Seq<char>
    decreases s.len(),
{
    if s.len() == 0 {
        Seq::empty()
    } else {
        json_char_escape(s[0]) + json_escape(s.drop_first())
    }
}

/// The text that `serde_json` writes for a JSON string holding `s`: the
/// escaped characters between double quotes.
pub open spec fn json_string_literal(s: Seq<char>) -> Seq<char> {
    seq!['"'] + json_escape(s) + seq!['"']
}

/// A character that is written as it is.
pub open spec fn is_plain_char(c: char) -> bool {
    c != '"' && c != '\\' && (c as int) >= 0x20
}

proof fn lemma_plain_escape(s: Seq<char>)
    requires
        forall|i: int| 0 <= i < s.len() ==> is_plain_char(#[trigger] s[i]),
    ensures
        json_escape(s) == s,
    decreases s.len(),
{
    if s.len() > 0 {
        let rest = s.drop_first();
        assert forall|i: int| 0 <= i < rest.len() implies is_plain_char(#[trigger] rest[i]) by {
            assert(rest[i] == s[i + 1]);
        }
        lemma_plain_escape(rest);
        assert(is_plain_char(s[0]));
        assert(json_escape(s) =~= s);
    }
}

/// A string of plain characters is written as it is, between quotes.
pub proof fn lemma_plain_text_is_quoted(s: Seq<char>)
    requires
        forall|i: int| 0 <= i < s.len() ==> is_plain_char(#[trigger] s[i]),
    ensures
        json_string_literal(s) == seq!['"'] + s + seq!['"'],
{
    lemma_plain_escape(s);
}

/// Calls `serde_json::to_string` on a string slice.
///
/// Claimed of it: the result is `Ok`, and the text is `json_string_literal`
/// of the argument, which restates the escape table of `serde_json`'s
/// `format_escaped_str_contents` and `write_char_escape` (a byte of a
/// multi-byte character is never escaped there, so escaping by character
/// gives the same text).  `serde_json` documents two ways to fail, a `Serialize`
/// impl that fails and a map with non-string keys; neither exists for `str`,
/// whose impl calls `serialize_str`, which writes into a `Vec<u8>` and so
/// meets no I/O error.
#[verifier::external_body]
fn quote_json(s: &str) -> (r: Result<String, serde_json::Error>)
    ensures
        r is Ok,
        r matches Ok(t) ==> t@ == json_string_literal(s@),
{
    serde_json::to_string(s)
}

/// A string as a JSON string literal, as `serde_json` writes it.
pub fn json_string(s: &str) -> (r: String)
    ensures
        r@ == json_string_literal(s@),
{
    match quote_json(s) {
        Ok(t) => t,
        Err(_) => {
            proof {
                assert(false);
            }
            String::new()
        },
    }
}

/// The character of a decimal digit.
pub open spec fn digit_char(d: nat) -> char {
    seq!['0', '1', '2', '3', '4', '5', '6', '7', '8', '9'][d as int]
}

/// The decimal digits of `n`, most significant first, without leading zeros.
pub open spec fn decimal(n: nat) -> Seq<char>
    decreases n,
{
    if n < 10 {
        seq![digit_char(n)]
    } else {
        decimal(n / 10).push(digit_char(n % 10))
    }
}

fn push_digit(out: &mut String, d: u32)
    requires
        d < 10,
    ensures
        final(out)@ == old(out)@.push(digit_char(d as nat)),
{
    proof {
        reveal_strlit("0");
        reveal_strlit("1");
        reveal_strlit("2");
        reveal_strlit("3");
        reveal_strlit("4");
        reveal_strlit("5");
        reveal_strlit("6");
        reveal_strlit("7");
        reveal_strlit("8");
        reveal_strlit("9");
    }
    let digit = match d {
        0 => "0",
        1 => "1",
        2 => "2",
        3 => "3",
        4 => "4",
        5 => "5",
        6 => "6",
        7 => "7",
        8 => "8",
        _ => "9",
    };
    out.append(digit);
    assert(out@ =~= old(out)@.push(digit_char(d as nat)));
}

/// Appends the decimal digits of `n`.
pub fn append_decimal(out: &mut String, n: u32)
    ensures
        final(out)@ == old(out)@ + decimal(n as nat),
    decreases n,
{
    if n >= 10 {
        append_decimal(out, n / 10);
    }
    push_digit(out, n % 10);
    assert(out@ =~= old(out)@ + decimal(n as nat));
}


/// The nonce of a soundboard request: `play-soundboard-{sound}-{guild}`.
pub open spec fn soundboard_nonce(sound_id: Seq<char>, guild_id: Seq<char>) -> Seq<char> {
    "play-soundboard-"@ + sound_id + "-"@ + guild_id
}

/// The `PLAY_SOUNDBOARD_SOUND` object around its JSON-encoded strings: the
/// keys `args` (holding `guild_id` and `sound_id`), `cmd` and `nonce`, in
/// that order, written compactly.
pub open spec fn soundboard_frame(guild_json: Seq<char>, sound_json: Seq<char>, nonce_json: Seq<char>) -> Seq<char> {
    "{\"args\":{\"guild_id\":"@ + guild_json + ",\"sound_id\":"@ + sound_json
        + "},\"cmd\":\"PLAY_SOUNDBOARD_SOUND\",\"nonce\":"@ + nonce_json + "}"@
}

/// The `PLAY_SOUNDBOARD_SOUND` request for a sound of a guild.
pub open spec fn soundboard_payload(sound_id: Seq<char>, guild_id: Seq<char>) -> Seq<char> {
    soundboard_frame(
        json_string_literal(guild_id),
        json_string_literal(sound_id),
        json_string_literal(soundboard_nonce(sound_id, guild_id)),
    )
}

/// The nonce of a screen share request: `toggle-screenshare-{pid}`, or
/// `toggle-screenshare` when no process is named.
pub open spec fn screenshare_nonce(pid: Option<u32>) -> Seq<char> {
    match pid {
        Some(p) => "toggle-screenshare-"@ + decimal(p as nat),
        None => "toggle-screenshare"@,
    }
}

/// The JSON value of the `pid` argument: the number, or `null`.
pub open spec fn json_pid(pid: Option<u32>) -> Seq<char> {
    match pid {
        Some(p) => decimal(p as nat),
        None => "null"@,
    }
}

/// The `TOGGLE_SCREENSHARE` object around its encoded nonce: `args` holding
/// `pid`, then `cmd` and `nonce`.
pub open spec fn screenshare_frame(pid: Option<u32>, nonce_json: Seq<char>) -> Seq<char> {
    "{\"args\":{\"pid\":"@ + json_pid(pid) + "},\"cmd\":\"TOGGLE_SCREENSHARE\",\"nonce\":"@ + nonce_json + "}"@
}

/// The `TOGGLE_SCREENSHARE` request.
pub open spec fn screenshare_payload(pid: Option<u32>) -> Seq<char> {
    screenshare_frame(pid, json_string_literal(screenshare_nonce(pid)))
}

/// The `TOGGLE_VIDEO` object around its encoded nonce: `cmd` and `nonce`.
pub open spec fn camera_frame(nonce_json: Seq<char>) -> Seq<char> {
    "{\"cmd\":\"TOGGLE_VIDEO\",\"nonce\":"@ + nonce_json + "}"@
}

/// The `TOGGLE_VIDEO` request.
pub open spec fn camera_payload() -> Seq<char> {
    camera_frame(json_string_literal("toggle-video"@))
}

/// Writes the `PLAY_SOUNDBOARD_SOUND` object around strings already encoded
/// as JSON.
pub fn frame_soundboard(guild_json: &str, sound_json: &str, nonce_json: &str) -> (r: String)
    ensures
        r@ == soundboard_frame(guild_json@, sound_json@, nonce_json@),
{
    let mut out = String::from_str("{\"args\":{\"guild_id\":");
    out.append(guild_json);
    out.append(",\"sound_id\":");
    out.append(sound_json);
    out.append("},\"cmd\":\"PLAY_SOUNDBOARD_SOUND\",\"nonce\":");
    out.append(nonce_json);
    out.append("}");
    out
}

/// Builds the `PLAY_SOUNDBOARD_SOUND` request for a sound of a guild.
pub fn soundboard_request(sound_id: &str, guild_id: &str) -> (r: String)
    ensures
        r@ == soundboard_payload(sound_id@, guild_id@),
{
    let mut nonce = String::from_str("play-soundboard-");
    nonce.append(sound_id);
    nonce.append("-");
    nonce.append(guild_id);
    let guild_json = json_string(guild_id);
    let sound_json = json_string(sound_id);
    let nonce_json = json_string(nonce.as_str());
    frame_soundboard(guild_json.as_str(), sound_json.as_str(), nonce_json.as_str())
}

/// The nonce of a screen share request.
pub fn screenshare_nonce_text(pid: Option<u32>) -> (r: String)
    ensures
        r@ == screenshare_nonce(pid),
{
    let mut nonce = String::from_str("toggle-screenshare");
    if let Some(p) = pid {
        nonce.append("-");
        append_decimal(&mut nonce, p);
        proof {
            reveal_strlit("toggle-screenshare");
            reveal_strlit("toggle-screenshare-");
            reveal_strlit("-");
            assert(nonce@ =~= screenshare_nonce(pid));
        }
    }
    nonce
}

/// Writes the `TOGGLE_SCREENSHARE` object around an encoded nonce.
pub fn frame_screenshare(pid: Option<u32>, nonce_json: &str) -> (r: String)
    ensures
        r@ == screenshare_frame(pid, nonce_json@),
{
    let mut out = String::from_str("{\"args\":{\"pid\":");
    match pid {
        Some(p) => append_decimal(&mut out, p),
        None => out.append("null"),
    }
    out.append("},\"cmd\":\"TOGGLE_SCREENSHARE\",\"nonce\":");
    out.append(nonce_json);
    out.append("}");
    out
}

/// Builds the `TOGGLE_SCREENSHARE` request, naming the process to share
/// when `pid` is given.
pub fn screenshare_request(pid: Option<u32>) -> (r: String)
    ensures
        r@ == screenshare_payload(pid),
{
    let nonce = screenshare_nonce_text(pid);
    let nonce_json = json_string(nonce.as_str());
    frame_screenshare(pid, nonce_json.as_str())
}

/// Writes the `TOGGLE_VIDEO` object around an encoded nonce.
pub fn frame_camera(nonce_json: &str) -> (r: String)
    ensures
        r@ == camera_frame(nonce_json@),
{
    let mut out = String::from_str("{\"cmd\":\"TOGGLE_VIDEO\",\"nonce\":");
    out.append(nonce_json);
    out.append("}");
    out
}

/// Builds the `TOGGLE_VIDEO` request.
pub fn camera_request() -> (r: String)
    ensures
        r@ == camera_payload(),
{
    let nonce_json = json_string("toggle-video");
    frame_camera(nonce_json.as_str())
}

/// The value of a decimal digit character.
pub open spec fn digit_value(c: char) -> int {
    (c as int) - 48
}

/// The character is one of `0` to `9`.
pub open spec fn is_decimal_digit(c: char) -> bool {
    48 <= (c as int) <= 57
}

/// The number that a run of decimal digits denotes, most significant first.
pub open spec fn decimal_value(s: Seq<char>) -> int
    decreases s.len(),
{
    if s.len() == 0 {
        0
    } else {
        decimal_value(s.drop_last()) * 10 + digit_value(s.last())
    }
}

proof fn lemma_digit_char_code(d: nat)
    requires
        d < 10,
    ensures
        digit_char(d) as int == 48 + d,
{
    if d == 0 {
        assert(digit_char(0) == '0');
    } else if d == 1 {
        assert(digit_char(1) == '1');
    } else if d == 2 {
        assert(digit_char(2) == '2');
    } else if d == 3 {
        assert(digit_char(3) == '3');
    } else if d == 4 {
        assert(digit_char(4) == '4');
    } else if d == 5 {
        assert(digit_char(5) == '5');
    } else if d == 6 {
        assert(digit_char(6) == '6');
    } else if d == 7 {
        assert(digit_char(7) == '7');
    } else if d == 8 {
        assert(digit_char(8) == '8');
    } else {
        assert(digit_char(9) == '9');
    }
}

/// `decimal(n)` is the usual base-ten text of `n`: decimal digits only, no
/// leading zero, and read back as a number it is `n`.  So two numbers with
/// the same text are equal.
pub proof fn lemma_decimal_is_base_ten(n: nat)
    ensures
        decimal(n).len() > 0,
        forall|i: int| 0 <= i < decimal(n).len() ==> is_decimal_digit(#[trigger] decimal(n)[i]),
        decimal_value(decimal(n)) == n,
        n >= 10 ==> decimal(n)[0] != '0',
        n < 10 ==> decimal(n).len() == 1,
    decreases n,
{
    if n < 10 {
        lemma_digit_char_code(n);
        assert(decimal(n).drop_last() =~= Seq::<char>::empty());
        assert(decimal(n).last() == digit_char(n));
        assert(decimal_value(Seq::<char>::empty()) == 0);
        assert(decimal_value(decimal(n)) == decimal_value(decimal(n).drop_last()) * 10 + digit_value(digit_char(n)));
    } else {
        lemma_decimal_is_base_ten(n / 10);
        lemma_digit_char_code(n % 10);
        let prefix = decimal(n / 10);
        assert(decimal(n) == prefix.push(digit_char(n % 10)));
        assert(decimal(n).drop_last() =~= prefix);
        assert(decimal(n).last() == digit_char(n % 10));
        assert(decimal_value(decimal(n)) == decimal_value(prefix) * 10 + digit_value(digit_char(n % 10)));
        assert((n / 10) * 10 + n % 10 == n);
        assert(decimal(n)[0] == prefix[0]);
        assert forall|i: int| 0 <= i < decimal(n).len() implies is_decimal_digit(#[trigger] decimal(n)[i]) by {
            if i < prefix.len() {
                assert(decimal(n)[i] == prefix[i]);
            }
        }
    }
}

/// Different numbers have different decimal texts.
pub proof fn lemma_decimal_injective(a: nat, b: nat)
    requires
        decimal(a) == decimal(b),
    ensures
        a == b,
{
    lemma_decimal_is_base_ten(a);
    lemma_decimal_is_base_ten(b);
}

/// The value of a lower-case hexadecimal digit character.
pub open spec fn hex_value(c: char) -> int {
    if (c as int) <= 57 {
        (c as int) - 48
    } else {
        (c as int) - 87
    }
}

/// `hex_digit` gives the digit of each value below sixteen.
pub proof fn lemma_hex_digit_value(d: nat)
    requires
        d < 16,
    ensures
        hex_value(hex_digit(d)) == d,
        (48 <= (hex_digit(d) as int) <= 57) || (97 <= (hex_digit(d) as int) <= 102),
{
    let digits = seq!['0', '1', '2', '3', '4', '5', '6', '7', '8', '9', 'a', 'b', 'c', 'd', 'e', 'f'];
    assert(hex_digit(d) == digits[d as int]);
    assert(digits[0] == '0' && digits[1] == '1' && digits[2] == '2' && digits[3] == '3');
    assert(digits[4] == '4' && digits[5] == '5' && digits[6] == '6' && digits[7] == '7');
    assert(digits[8] == '8' && digits[9] == '9' && digits[10] == 'a' && digits[11] == 'b');
    assert(digits[12] == 'c' && digits[13] == 'd' && digits[14] == 'e' && digits[15] == 'f');
}

/// How JSON writes one character: a quote or backslash gets a backslash in
/// front; a control character is written as a backslash escape, either the
/// short one of the five that have one, or `\u00` and two hexadecimal
/// digits giving its code; any other character is written as it is.
pub proof fn lemma_char_escape_rules(c: char)
    ensures
        (c == '"' || c == '\\') ==> json_char_escape(c) == seq!['\\', c],
        c == '\n' ==> json_char_escape(c) == seq!['\\', 'n'],
        c == '\t' ==> json_char_escape(c) == seq!['\\', 't'],
        c == '\r' ==> json_char_escape(c) == seq!['\\', 'r'],
        c == '\u{8}' ==> json_char_escape(c) == seq!['\\', 'b'],
        c == '\u{c}' ==> json_char_escape(c) == seq!['\\', 'f'],
        ((c as int) < 0x20 && c != '\n' && c != '\t' && c != '\r' && c != '\u{8}' && c != '\u{c}') ==> {
            let e = json_char_escape(c);
            &&& e.len() == 6
            &&& e[0] == '\\' && e[1] == 'u' && e[2] == '0' && e[3] == '0'
            &&& 16 * hex_value(e[4]) + hex_value(e[5]) == c as int
        },
        is_plain_char(c) ==> json_char_escape(c) == seq![c],
        !is_plain_char(c) ==> json_char_escape(c).len() >= 2 && json_char_escape(c)[0] == '\\',
{
    if (c as int) < 0x20 {
        lemma_hex_digit_value((c as nat) / 16);
        lemma_hex_digit_value((c as nat) % 16);
    }
}

/// Escaping goes character by character: the escape of a concatenation is
/// the concatenation of the escapes.
pub proof fn lemma_escape_concat(a: Seq<char>, b: Seq<char>)
    ensures
        json_escape(a + b) == json_escape(a) + json_escape(b),
    decreases a.len(),
{
    if a.len() == 0 {
        assert(a + b =~= b);
    } else {
        lemma_escape_concat(a.drop_first(), b);
        assert((a + b).drop_first() =~= a.drop_first() + b);
        assert((a + b)[0] == a[0]);
        assert(json_escape(a + b) =~= json_escape(a) + json_escape(b));
    }
}

/// One member of a JSON object: the key as a JSON string, a colon, the value.
pub open spec fn json_member(key: Seq<char>, value: Seq<char>) -> Seq<char> {
    json_string_literal(key) + seq![':'] + value
}

/// The members of a JSON object, separated by commas.
pub open spec fn json_members(members: Seq<(Seq<char>, Seq<char>)>) -> Seq<char>
    decreases members.len(),
{
    if members.len() == 0 {
        Seq::empty()
    } else if members.len() == 1 {
        json_member(members[0].0, members[0].1)
    } else {
        json_member(members[0].0, members[0].1) + seq![','] + json_members(members.drop_first())
    }
}

/// A JSON object written compactly, with its members in the given order.
pub open spec fn json_object(members: Seq<(Seq<char>, Seq<char>)>) -> Seq<char> {
    seq!['{'] + json_members(members) + seq!['}']
}

proof fn lemma_plain_literal(s: Seq<char>)
    requires
        forall|i: int| 0 <= i < s.len() ==> is_plain_char(#[trigger] s[i]),
    ensures
        json_string_literal(s) == seq!['"'] + s + seq!['"'],
{
    lemma_plain_text_is_quoted(s);
}

/// The soundboard request is the JSON object with `args` (an object of
/// `guild_id` and `sound_id`), `cmd` = `PLAY_SOUNDBOARD_SOUND` and `nonce`,
/// keys in ascending order, whatever the encoded values.
pub proof fn lemma_soundboard_frame_is_object(guild_json: Seq<char>, sound_json: Seq<char>, nonce_json: Seq<char>)
    ensures
        soundboard_frame(guild_json, sound_json, nonce_json) == json_object(
            seq![
                ("args"@, json_object(seq![("guild_id"@, guild_json), ("sound_id"@, sound_json)])),
                ("cmd"@, json_string_literal("PLAY_SOUNDBOARD_SOUND"@)),
                ("nonce"@, nonce_json),
            ],
        ),
{
    reveal_strlit("args");
    reveal_strlit("guild_id");
    reveal_strlit("sound_id");
    reveal_strlit("cmd");
    reveal_strlit("nonce");
    reveal_strlit("PLAY_SOUNDBOARD_SOUND");
    reveal_strlit("{\"args\":{\"guild_id\":");
    reveal_strlit(",\"sound_id\":");
    reveal_strlit("},\"cmd\":\"PLAY_SOUNDBOARD_SOUND\",\"nonce\":");
    reveal_strlit("}");
    lemma_plain_literal("args"@);
    lemma_plain_literal("guild_id"@);
    lemma_plain_literal("sound_id"@);
    lemma_plain_literal("cmd"@);
    lemma_plain_literal("nonce"@);
    lemma_plain_literal("PLAY_SOUNDBOARD_SOUND"@);
    let inner = seq![("guild_id"@, guild_json), ("sound_id"@, sound_json)];
    let outer = seq![
        ("args"@, json_object(inner)),
        ("cmd"@, json_string_literal("PLAY_SOUNDBOARD_SOUND"@)),
        ("nonce"@, nonce_json),
    ];
    assert(inner.drop_first() =~= seq![("sound_id"@, sound_json)]);
    assert(outer.drop_first() =~= seq![("cmd"@, json_string_literal("PLAY_SOUNDBOARD_SOUND"@)), ("nonce"@, nonce_json)]);
    assert(outer.drop_first().drop_first() =~= seq![("nonce"@, nonce_json)]);
    reveal_with_fuel(json_members, 3);
    assert(soundboard_frame(guild_json, sound_json, nonce_json) =~= json_object(outer));
}

/// The screen share request is the JSON object with `args` (an object whose
/// `pid` is the process number, or `null` without one), `cmd` =
/// `TOGGLE_SCREENSHARE` and `nonce`.
pub proof fn lemma_screenshare_frame_is_object(pid: Option<u32>, nonce_json: Seq<char>)
    ensures
        screenshare_frame(pid, nonce_json) == json_object(
            seq![
                ("args"@, json_object(seq![("pid"@, json_pid(pid))])),
                ("cmd"@, json_string_literal("TOGGLE_SCREENSHARE"@)),
                ("nonce"@, nonce_json),
            ],
        ),
        json_pid(None) == seq!['n', 'u', 'l', 'l'],
        pid matches Some(p) ==> json_pid(pid) == decimal(p as nat),
{
    reveal_strlit("args");
    reveal_strlit("pid");
    reveal_strlit("cmd");
    reveal_strlit("nonce");
    reveal_strlit("null");
    reveal_strlit("TOGGLE_SCREENSHARE");
    reveal_strlit("{\"args\":{\"pid\":");
    reveal_strlit("},\"cmd\":\"TOGGLE_SCREENSHARE\",\"nonce\":");
    reveal_strlit("}");
    lemma_plain_literal("args"@);
    lemma_plain_literal("pid"@);
    lemma_plain_literal("cmd"@);
    lemma_plain_literal("nonce"@);
    lemma_plain_literal("TOGGLE_SCREENSHARE"@);
    let outer = seq![
        ("args"@, json_object(seq![("pid"@, json_pid(pid))])),
        ("cmd"@, json_string_literal("TOGGLE_SCREENSHARE"@)),
        ("nonce"@, nonce_json),
    ];
    assert(outer.drop_first() =~= seq![("cmd"@, json_string_literal("TOGGLE_SCREENSHARE"@)), ("nonce"@, nonce_json)]);
    assert(outer.drop_first().drop_first() =~= seq![("nonce"@, nonce_json)]);
    reveal_with_fuel(json_members, 3);
    assert(screenshare_frame(pid, nonce_json) =~= json_object(outer));
    assert(json_pid(None) =~= seq!['n', 'u', 'l', 'l']);
}

/// The camera request is the JSON object with `cmd` = `TOGGLE_VIDEO` and
/// `nonce`.
pub proof fn lemma_camera_frame_is_object(nonce_json: Seq<char>)
    ensures
        camera_frame(nonce_json) == json_object(
            seq![("cmd"@, json_string_literal("TOGGLE_VIDEO"@)), ("nonce"@, nonce_json)],
        ),
{
    reveal_strlit("cmd");
    reveal_strlit("nonce");
    reveal_strlit("TOGGLE_VIDEO");
    reveal_strlit("{\"cmd\":\"TOGGLE_VIDEO\",\"nonce\":");
    reveal_strlit("}");
    lemma_plain_literal("cmd"@);
    lemma_plain_literal("nonce"@);
    lemma_plain_literal("TOGGLE_VIDEO"@);
    let members = seq![("cmd"@, json_string_literal("TOGGLE_VIDEO"@)), ("nonce"@, nonce_json)];
    assert(members.drop_first() =~= seq![("nonce"@, nonce_json)]);
    reveal_with_fuel(json_members, 2);
    assert(camera_frame(nonce_json) =~= json_object(members));
}

/// The requests encode the values the buttons supply: the soundboard
/// request carries the guild and the sound as JSON strings and a nonce that
/// is `play-soundboard-`, the sound, `-` and the guild; the screen share
/// request carries the process number and a nonce that is
/// `toggle-screenshare`, followed by `-` and the number when there is one;
/// the camera request carries the nonce `toggle-video`.
pub proof fn lemma_payloads_encode_values(sound_id: Seq<char>, guild_id: Seq<char>, pid: Option<u32>)
    ensures
        soundboard_payload(sound_id, guild_id) == soundboard_frame(
            json_string_literal(guild_id),
            json_string_literal(sound_id),
            json_string_literal(
                seq!['p', 'l', 'a', 'y', '-', 's', 'o', 'u', 'n', 'd', 'b', 'o', 'a', 'r', 'd', '-'] + sound_id
                    + seq!['-'] + guild_id,
            ),
        ),
        screenshare_nonce(None) == seq![
            't', 'o', 'g', 'g', 'l', 'e', '-', 's', 'c', 'r', 'e', 'e', 'n', 's', 'h', 'a', 'r', 'e'
        ],
        pid matches Some(p) ==> screenshare_nonce(pid) == screenshare_nonce(None) + seq!['-'] + decimal(p as nat),
        screenshare_payload(pid) == screenshare_frame(pid, json_string_literal(screenshare_nonce(pid))),
        camera_payload() == camera_frame(
            json_string_literal(seq!['t', 'o', 'g', 'g', 'l', 'e', '-', 'v', 'i', 'd', 'e', 'o']),
        ),
{
    reveal_strlit("play-soundboard-");
    reveal_strlit("-");
    reveal_strlit("toggle-screenshare");
    reveal_strlit("toggle-screenshare-");
    reveal_strlit("toggle-video");
    assert(soundboard_nonce(sound_id, guild_id) =~= seq![
        'p', 'l', 'a', 'y', '-', 's', 'o', 'u', 'n', 'd', 'b', 'o', 'a', 'r', 'd', '-'
    ] + sound_id + seq!['-'] + guild_id);
    assert(screenshare_nonce(None) =~= seq![
        't', 'o', 'g', 'g', 'l', 'e', '-', 's', 'c', 'r', 'e', 'e', 'n', 's', 'h', 'a', 'r', 'e'
    ]);
    if let Some(p) = pid {
        assert(screenshare_nonce(pid) =~= screenshare_nonce(None) + seq!['-'] + decimal(p as nat));
    }
    assert("toggle-video"@ =~= seq!['t', 'o', 'g', 'g', 'l', 'e', '-', 'v', 'i', 'd', 'e', 'o']);
}

} // verus!
