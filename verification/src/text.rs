//! Verified text rendering: decimal numerals, zero padding, frame paths,
//! and timestamps with one decimal place.

use vstd::prelude::*;

verus! {

/// The numeral of one decimal digit.
pub open spec fn spec_digit(d: int) -> char {
    if d == 0 { '0' }
    else if d == 1 { '1' }
    else if d == 2 { '2' }
    else if d == 3 { '3' }
    else if d == 4 { '4' }
    else if d == 5 { '5' }
    else if d == 6 { '6' }
    else if d == 7 { '7' }
    else if d == 8 { '8' }
    else { '9' }
}

/// The decimal numeral of `n`, most significant digit first.
pub open spec fn spec_dec(n: nat) -> Seq<char>
    decreases n,
{
    if n < 10 {
        seq![spec_digit(n as int)]
    } else {
        spec_dec(n / 10).push(spec_digit((n % 10) as int))
    }
}

/// The numeral of `n` padded with zeroes to at least three digits.
pub open spec fn spec_pad3(n: nat) -> Seq<char> {
    if n < 10 {
        seq!['0', '0'] + spec_dec(n)
    } else if n < 100 {
        seq!['0'] + spec_dec(n)
    } else {
        spec_dec(n)
    }
}

/// A timestamp in milliseconds as seconds with one decimal place,
/// truncated: whole seconds, a point, then the tenths digit.
pub open spec fn spec_ts_text(ms: nat) -> Seq<char> {
    spec_dec(ms / 1000) + seq!['.'] + seq![spec_digit(((ms % 1000) / 100) as int)]
}

/// Appends the numeral of one digit to a string.
fn push_digit(s: &mut String, d: u64)
    requires
        d < 10,
    ensures
        final(s)@ == old(s)@ + seq![spec_digit(d as int)],
{
    match d {
        0 => {
            s.append("0");
            proof { reveal_strlit("0"); assert(("0")@ =~= seq![spec_digit(0)]); }
        },
        1 => {
            s.append("1");
            proof { reveal_strlit("1"); assert(("1")@ =~= seq![spec_digit(1)]); }
        },
        2 => {
            s.append("2");
            proof { reveal_strlit("2"); assert(("2")@ =~= seq![spec_digit(2)]); }
        },
        3 => {
            s.append("3");
            proof { reveal_strlit("3"); assert(("3")@ =~= seq![spec_digit(3)]); }
        },
        4 => {
            s.append("4");
            proof { reveal_strlit("4"); assert(("4")@ =~= seq![spec_digit(4)]); }
        },
        5 => {
            s.append("5");
            proof { reveal_strlit("5"); assert(("5")@ =~= seq![spec_digit(5)]); }
        },
        6 => {
            s.append("6");
            proof { reveal_strlit("6"); assert(("6")@ =~= seq![spec_digit(6)]); }
        },
        7 => {
            s.append("7");
            proof { reveal_strlit("7"); assert(("7")@ =~= seq![spec_digit(7)]); }
        },
        8 => {
            s.append("8");
            proof { reveal_strlit("8"); assert(("8")@ =~= seq![spec_digit(8)]); }
        },
        _ => {
            s.append("9");
            proof { reveal_strlit("9"); assert(("9")@ =~= seq![spec_digit(9)]); }
        },
    }
}

/// The decimal numeral of `n` as a string.
pub fn dec_string(n: u64) -> (r: String)
    ensures
        r@ == spec_dec(n as nat),
    decreases n,
{
    if n < 10 {
        let mut s = String::new();
        push_digit(&mut s, n);
        proof {
            assert(s@ =~= spec_dec(n as nat));
        }
        s
    } else {
        let mut s = dec_string(n / 10);
        push_digit(&mut s, n % 10);
        proof {
            assert(s@ =~= spec_dec(n as nat));
        }
        s
    }
}

/// The numeral of `n`, zero-padded to at least three digits.
pub fn pad3_string(n: u64) -> (r: String)
    ensures
        r@ == spec_pad3(n as nat),
{
    let mut s = String::new();
    if n < 10 {
        s.append("00");
        proof { reveal_strlit("00"); }
    } else if n < 100 {
        s.append("0");
        proof { reveal_strlit("0"); }
    }
    let d = dec_string(n);
    s.append(d.as_str());
    proof {
        assert(s@ =~= spec_pad3(n as nat));
    }
    s
}

/// The storage path of one selected frame: the video id and the
/// zero-padded frame id under the data directory, as a JPEG.
pub fn frame_path(video_id: &str, frame_id: u64) -> (r: String)
    ensures
        r@ == "data/"@ + video_id@ + "_frame_"@ + spec_pad3(frame_id as nat) + ".jpg"@,
{
    let mut s = String::from_str("data/");
    s.append(video_id);
    s.append("_frame_");
    let p = pad3_string(frame_id);
    s.append(p.as_str());
    s.append(".jpg");
    proof {
        assert(s@ =~= "data/"@ + video_id@ + "_frame_"@ + spec_pad3(frame_id as nat) + ".jpg"@);
    }
    s
}

/// A timestamp in milliseconds as seconds with one decimal place.
pub fn ts_text(ms: u64) -> (r: String)
    ensures
        r@ == spec_ts_text(ms as nat),
{
    let mut s = dec_string(ms / 1000);
    s.append(".");
    push_digit(&mut s, (ms % 1000) / 100);
    proof {
        reveal_strlit(".");
        assert((".")@ =~= seq!['.']);
        assert(s@ =~= spec_ts_text(ms as nat));
    }
    s
}

} // verus!
