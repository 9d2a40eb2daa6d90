//! The JSON body of a reading and the request that carries it.
use vstd::prelude::*;

use crate::sensor_config::mac_text;
use crate::text::{hex_pair, dec_chars, is_digit, lemma_dec_chars_digits, lemma_dec_chars_injective, push_decimal, push_str};

verus! {

/// One reading as it is sent to the collector. The two measured values are
/// held as the text of their JSON numbers.
#[derive(Clone, Debug)]
pub struct Reading {
    pub serial: u64,
    pub mac: String,
    pub cycle: u32,
    pub co2: u16,
    pub temperature: String,
    pub humidity: String,
}

/// The JSON body of a reading, in its fixed field order.
pub open spec fn body_text(r: Reading) -> Seq<char> {
    "{\"serial\":"@ + dec_chars(r.serial as nat) + ",\"mac\":\""@ + r.mac@ + "\",\"cycle\":"@
        + dec_chars(r.cycle as nat) + ",\"co2\":"@ + dec_chars(r.co2 as nat) + ",\"temperature\":"@
        + r.temperature@ + ",\"humidity\":"@ + r.humidity@ + "}"@
}

/// The request that posts `body` for the device called `name` to `host`.
pub open spec fn request_text(name: Seq<char>, host: Seq<char>, body: Seq<char>) -> Seq<char> {
    "POST /sensor/intake/"@ + name + " HTTP/1.1\r\nHost: "@ + host
        + "\r\nContent-Type: application/json\r\nContent-Length: "@ + dec_chars(body.len()) + "\r\n\r\n"@
        + body
}

/// Whether every character is ASCII.
pub open spec fn all_ascii(s: Seq<char>) -> bool {
    forall|i: int| 0 <= i < s.len() ==> (#[trigger] s[i] as u32) < 128
}

/// Renders the JSON body of a reading.
pub fn encode_body(r: &Reading) -> (s: String)
    ensures
        s@ == body_text(*r),
{
    let mut s = String::new();
    push_str(&mut s, "{\"serial\":");
    push_decimal(&mut s, r.serial);
    push_str(&mut s, ",\"mac\":\"");
    push_str(&mut s, r.mac.as_str());
    push_str(&mut s, "\",\"cycle\":");
    push_decimal(&mut s, r.cycle as u64);
    push_str(&mut s, ",\"co2\":");
    push_decimal(&mut s, r.co2 as u64);
    push_str(&mut s, ",\"temperature\":");
    push_str(&mut s, r.temperature.as_str());
    push_str(&mut s, ",\"humidity\":");
    push_str(&mut s, r.humidity.as_str());
    push_str(&mut s, "}");
    assert(s@ =~= body_text(*r));
    s
}

/// Frames a reading as the request posted for the device called `name`.
pub fn build_request(name: &String, host: &String, r: &Reading) -> (s: String)
    ensures
        s@ == request_text(name@, host@, body_text(*r)),
{
    let body = encode_body(r);
    let len = body.as_str().unicode_len();
    let mut s = String::new();
    push_str(&mut s, "POST /sensor/intake/");
    push_str(&mut s, name.as_str());
    push_str(&mut s, " HTTP/1.1\r\nHost: ");
    push_str(&mut s, host.as_str());
    push_str(&mut s, "\r\nContent-Type: application/json\r\nContent-Length: ");
    push_decimal(&mut s, len as u64);
    push_str(&mut s, "\r\n\r\n");
    push_str(&mut s, body.as_str());
    s
}

/// A character that may stand in a JSON number.
pub open spec fn is_number_char(c: char) -> bool {
    is_digit(c) || c == '-' || c == '+' || c == '.' || c == 'e' || c == 'E'
}

/// A non-empty text made of number characters.
pub open spec fn is_number_text(s: Seq<char>) -> bool {
    s.len() > 0 && forall|i: int| 0 <= i < s.len() ==> is_number_char(#[trigger] s[i])
}

/// A text without a double quote.
pub open spec fn is_plain_text(s: Seq<char>) -> bool {
    forall|i: int| 0 <= i < s.len() ==> #[trigger] s[i] != '"'
}

/// A reading whose texts can stand in the body as they are.
pub open spec fn valid_reading(r: Reading) -> bool {
    is_plain_text(r.mac@) && is_number_text(r.temperature@) && is_number_text(r.humidity@)
}

spec fn tail_humidity(r: Reading) -> Seq<char> {
    r.humidity@ + "}"@
}

spec fn tail_temperature(r: Reading) -> Seq<char> {
    r.temperature@ + (",\"humidity\":"@ + tail_humidity(r))
}

spec fn tail_co2(r: Reading) -> Seq<char> {
    dec_chars(r.co2 as nat) + (",\"temperature\":"@ + tail_temperature(r))
}

spec fn tail_cycle(r: Reading) -> Seq<char> {
    dec_chars(r.cycle as nat) + (",\"co2\":"@ + tail_co2(r))
}

spec fn tail_mac(r: Reading) -> Seq<char> {
    r.mac@ + ("\",\"cycle\":"@ + tail_cycle(r))
}

spec fn tail_serial(r: Reading) -> Seq<char> {
    dec_chars(r.serial as nat) + (",\"mac\":\""@ + tail_mac(r))
}

proof fn lemma_body_tails(r: Reading)
    ensures
        body_text(r) == "{\"serial\":"@ + tail_serial(r),
{
    assert(body_text(r) =~= "{\"serial\":"@ + tail_serial(r));
}

proof fn lemma_strip_prefix(a: Seq<char>, y1: Seq<char>, y2: Seq<char>)
    requires
        a + y1 == a + y2,
    ensures
        y1 == y2,
{
    assert(y1 =~= (a + y1).subrange(a.len() as int, (a + y1).len() as int));
    assert(y2 =~= (a + y2).subrange(a.len() as int, (a + y2).len() as int));
}

/// Where neither front part holds a stop character and both back parts begin
/// with one, equal concatenations split the same way.
proof fn lemma_split_at_stop(
    x1: Seq<char>,
    y1: Seq<char>,
    x2: Seq<char>,
    y2: Seq<char>,
    stop: spec_fn(char) -> bool,
)
    requires
        x1 + y1 == x2 + y2,
        forall|i: int| 0 <= i < x1.len() ==> !stop(#[trigger] x1[i]),
        forall|i: int| 0 <= i < x2.len() ==> !stop(#[trigger] x2[i]),
        y1.len() > 0 && stop(y1[0]),
        y2.len() > 0 && stop(y2[0]),
    ensures
        x1 == x2,
        y1 == y2,
{
    let z = x1 + y1;
    if x1.len() < x2.len() {
        assert(z[x1.len() as int] == y1[0]);
        assert((x2 + y2)[x1.len() as int] == x2[x1.len() as int]);
    } else if x2.len() < x1.len() {
        assert((x2 + y2)[x2.len() as int] == y2[0]);
        assert(z[x2.len() as int] == x1[x2.len() as int]);
    }
    assert(x1 =~= z.subrange(0, x1.len() as int));
    assert(x2 =~= (x2 + y2).subrange(0, x2.len() as int));
    lemma_strip_prefix(x1, y1, y2);
}

/// The body determines the reading: decoding the body of a valid reading
/// gives back every one of its fields.
pub proof fn lemma_body_determines_reading(r1: Reading, r2: Reading)
    requires
        valid_reading(r1),
        valid_reading(r2),
        body_text(r1) == body_text(r2),
    ensures
        r1.serial == r2.serial,
        r1.mac@ == r2.mac@,
        r1.cycle == r2.cycle,
        r1.co2 == r2.co2,
        r1.temperature@ == r2.temperature@,
        r1.humidity@ == r2.humidity@,
{
    reveal_strlit("{\"serial\":");
    reveal_strlit(",\"mac\":\"");
    reveal_strlit("\",\"cycle\":");
    reveal_strlit(",\"co2\":");
    reveal_strlit(",\"temperature\":");
    reveal_strlit(",\"humidity\":");
    reveal_strlit("}");
    let non_digit = |c: char| !is_digit(c);
    let quote = |c: char| c == '"';
    let comma = |c: char| c == ',';
    lemma_body_tails(r1);
    lemma_body_tails(r2);
    lemma_strip_prefix("{\"serial\":"@, tail_serial(r1), tail_serial(r2));
    lemma_dec_chars_digits(r1.serial as nat);
    lemma_dec_chars_digits(r2.serial as nat);
    lemma_split_at_stop(
        dec_chars(r1.serial as nat),
        ",\"mac\":\""@ + tail_mac(r1),
        dec_chars(r2.serial as nat),
        ",\"mac\":\""@ + tail_mac(r2),
        non_digit,
    );
    lemma_dec_chars_injective(r1.serial as nat, r2.serial as nat);
    lemma_strip_prefix(",\"mac\":\""@, tail_mac(r1), tail_mac(r2));
    lemma_split_at_stop(
        r1.mac@,
        "\",\"cycle\":"@ + tail_cycle(r1),
        r2.mac@,
        "\",\"cycle\":"@ + tail_cycle(r2),
        quote,
    );
    lemma_strip_prefix("\",\"cycle\":"@, tail_cycle(r1), tail_cycle(r2));
    lemma_dec_chars_digits(r1.cycle as nat);
    lemma_dec_chars_digits(r2.cycle as nat);
    lemma_split_at_stop(
        dec_chars(r1.cycle as nat),
        ",\"co2\":"@ + tail_co2(r1),
        dec_chars(r2.cycle as nat),
        ",\"co2\":"@ + tail_co2(r2),
        non_digit,
    );
    lemma_dec_chars_injective(r1.cycle as nat, r2.cycle as nat);
    lemma_strip_prefix(",\"co2\":"@, tail_co2(r1), tail_co2(r2));
    lemma_dec_chars_digits(r1.co2 as nat);
    lemma_dec_chars_digits(r2.co2 as nat);
    lemma_split_at_stop(
        dec_chars(r1.co2 as nat),
        ",\"temperature\":"@ + tail_temperature(r1),
        dec_chars(r2.co2 as nat),
        ",\"temperature\":"@ + tail_temperature(r2),
        non_digit,
    );
    lemma_dec_chars_injective(r1.co2 as nat, r2.co2 as nat);
    lemma_strip_prefix(",\"temperature\":"@, tail_temperature(r1), tail_temperature(r2));
    lemma_split_at_stop(
        r1.temperature@,
        ",\"humidity\":"@ + tail_humidity(r1),
        r2.temperature@,
        ",\"humidity\":"@ + tail_humidity(r2),
        comma,
    );
    lemma_strip_prefix(",\"humidity\":"@, tail_humidity(r1), tail_humidity(r2));
    let h1 = r1.humidity@;
    let h2 = r2.humidity@;
    assert(h1 =~= tail_humidity(r1).subrange(0, h1.len() as int));
    assert(h2 =~= tail_humidity(r2).subrange(0, h2.len() as int));
}

proof fn lemma_ascii_concat(a: Seq<char>, b: Seq<char>)
    requires
        all_ascii(a),
        all_ascii(b),
    ensures
        all_ascii(a + b),
{
    assert forall|i: int| 0 <= i < (a + b).len() implies ((a + b)[i] as u32) < 128 by {
        if i < a.len() {
            assert((a + b)[i] == a[i]);
        } else {
            assert((a + b)[i] == b[i - a.len()]);
        }
    }
}

proof fn lemma_dec_chars_ascii(n: nat)
    ensures
        all_ascii(dec_chars(n)),
{
    lemma_dec_chars_digits(n);
    assert forall|i: int| 0 <= i < dec_chars(n).len() implies (dec_chars(n)[i] as u32) < 128 by {
        assert(is_digit(dec_chars(n)[i]));
    }
}

/// The body of a valid reading whose address text is ASCII is ASCII too, so
/// its length in characters, which the request states as its content length,
/// is its length in bytes.
pub proof fn lemma_body_is_ascii(r: Reading)
    requires
        valid_reading(r),
        all_ascii(r.mac@),
    ensures
        all_ascii(body_text(r)),
{
    reveal_strlit("{\"serial\":");
    reveal_strlit(",\"mac\":\"");
    reveal_strlit("\",\"cycle\":");
    reveal_strlit(",\"co2\":");
    reveal_strlit(",\"temperature\":");
    reveal_strlit(",\"humidity\":");
    reveal_strlit("}");
    lemma_dec_chars_ascii(r.serial as nat);
    lemma_dec_chars_ascii(r.cycle as nat);
    lemma_dec_chars_ascii(r.co2 as nat);
    assert(all_ascii(r.temperature@));
    assert(all_ascii(r.humidity@));
    let k1 = "{\"serial\":"@;
    let k2 = ",\"mac\":\""@;
    let k3 = "\",\"cycle\":"@;
    let k4 = ",\"co2\":"@;
    let k5 = ",\"temperature\":"@;
    let k6 = ",\"humidity\":"@;
    let k7 = "}"@;
    assert(all_ascii(k1));
    assert(all_ascii(k2));
    assert(all_ascii(k3));
    assert(all_ascii(k4));
    assert(all_ascii(k5));
    assert(all_ascii(k6));
    assert(all_ascii(k7));
    let a1 = k1 + dec_chars(r.serial as nat);
    lemma_ascii_concat(k1, dec_chars(r.serial as nat));
    lemma_ascii_concat(a1, k2);
    let a2 = a1 + k2 + r.mac@;
    lemma_ascii_concat(a1 + k2, r.mac@);
    lemma_ascii_concat(a2, k3);
    lemma_ascii_concat(a2 + k3, dec_chars(r.cycle as nat));
    let a3 = a2 + k3 + dec_chars(r.cycle as nat);
    lemma_ascii_concat(a3, k4);
    lemma_ascii_concat(a3 + k4, dec_chars(r.co2 as nat));
    let a4 = a3 + k4 + dec_chars(r.co2 as nat);
    lemma_ascii_concat(a4, k5);
    lemma_ascii_concat(a4 + k5, r.temperature@);
    let a5 = a4 + k5 + r.temperature@;
    lemma_ascii_concat(a5, k6);
    lemma_ascii_concat(a5 + k6, r.humidity@);
    lemma_ascii_concat(a5 + k6 + r.humidity@, k7);
}

/// The canonical address text, as the loop puts it in each reading, is ASCII
/// and holds no double quote, so it can stand in the body as it is.
pub proof fn lemma_mac_text_plain(m: Seq<u8>)
    requires
        m.len() == 6,
    ensures
        all_ascii(mac_text(m)),
        is_plain_text(mac_text(m)),
{
    let t = mac_text(m);
    assert forall|i: int| 0 <= i < t.len() implies (t[i] as u32) < 128 && t[i] != '"' by {
        let k = i / 3;
        assert(0 <= k < 6);
        if i % 3 == 2 {
            assert(t[i] == ':');
        } else {
            assert(t[i] == hex_pair(m[k])[i % 3]);
        }
    }
}

} // verus!
