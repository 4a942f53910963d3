use vstd::prelude::*;

verus! {

/// Relies on std::time::SystemTime::now and SystemTime::duration_since:
/// seconds elapsed since the Unix epoch, truncated to 32 bits, or 0 should
/// the clock read earlier than the epoch. The result depends on the clock,
/// so nothing is promised of it.
#[verifier::external_body]
pub fn current_timestamp() -> u32 {
    match std::time::SystemTime::now().duration_since(std::time::UNIX_EPOCH) {
        Ok(elapsed) => elapsed.as_secs() as u32,
        Err(_) => 0,
    }
}

/// The character of one decimal digit.
pub open spec fn spec_digit_char(d: int) -> char
    recommends
        0 <= d < 10,
{
    if d == 0 {
        '0'
    } else if d == 1 {
        '1'
    } else if d == 2 {
        '2'
    } else if d == 3 {
        '3'
    } else if d == 4 {
        '4'
    } else if d == 5 {
        '5'
    } else if d == 6 {
        '6'
    } else if d == 7 {
        '7'
    } else if d == 8 {
        '8'
    } else {
        '9'
    }
}

/// The decimal digits of `n`, most significant first, with no leading zeros
/// (a single zero for `n == 0`).
pub open spec fn spec_decimal(n: int) -> Seq<char>
    recommends
        n >= 0,
    decreases n,
{
    if n < 10 {
        seq![spec_digit_char(n)]
    } else {
        spec_decimal(n / 10).push(spec_digit_char(n % 10))
    }
}

/// How a span of whole seconds is displayed: hours, minutes and seconds, the
/// leading all-zero units left off.
pub open spec fn spec_format_duration(secs: int) -> Seq<char>
    recommends
        secs >= 0,
{
    let hours = secs / 3600;
    let minutes = (secs % 3600) / 60;
    let seconds = secs % 60;
    if hours > 0 {
        spec_decimal(hours) + "h "@ + spec_decimal(minutes) + "m "@ + spec_decimal(seconds) + "s"@
    } else if minutes > 0 {
        spec_decimal(minutes) + "m "@ + spec_decimal(seconds) + "s"@
    } else {
        spec_decimal(seconds) + "s"@
    }
}

/// One decimal digit as a one-character string.
fn digit_str(d: u64) -> (r: &'static str)
    requires
        d < 10,
    ensures
        r@ == seq![spec_digit_char(d as int)],
{
    proof {
        reveal_strlit("0");
        reveal_strlit("1");
        reveal_strlit("2");
        reveal_strlit("3");
        reveal_strlit("4");
        reveal_strlit("5");
        reveal_strlit("6");
        reveal_strlit("7");
        reveal_strlit("8");
        reveal_strlit("9");
    }
    let r = match d {
        0 => "0",
        1 => "1",
        2 => "2",
        3 => "3",
        4 => "4",
        5 => "5",
        6 => "6",
        7 => "7",
        8 => "8",
        _ => "9",
    };
    proof {
        assert(r@ =~= seq![spec_digit_char(d as int)]);
    }
    r
}

/// `n` written in decimal.
fn decimal_string(n: u64) -> (r: String)
    ensures
        r@ == spec_decimal(n as int),
    decreases n,
{
    if n < 10 {
        String::from_str(digit_str(n))
    } else {
        let mut prefix = decimal_string(n / 10);
        prefix.append(digit_str(n % 10));
        proof {
            assert(prefix@ =~= spec_decimal(n as int));
        }
        prefix
    }
}

/// Renders a span of whole seconds as hours, minutes and seconds, omitting
/// the leading units that are zero: "2h 5m 3s", "5m 3s" or "3s".
pub fn format_duration(secs: u64) -> (r: String)
    ensures
        r@ == spec_format_duration(secs as int),
{
    let hours = secs / 3600;
    let minutes = (secs % 3600) / 60;
    let seconds = secs % 60;

    if hours > 0 {
        let mut out = decimal_string(hours);
        out.append("h ");
        out.append(decimal_string(minutes).as_str());
        out.append("m ");
        out.append(decimal_string(seconds).as_str());
        out.append("s");
        out
    } else if minutes > 0 {
        let mut out = decimal_string(minutes);
        out.append("m ");
        out.append(decimal_string(seconds).as_str());
        out.append("s");
        out
    } else {
        let mut out = decimal_string(seconds);
        out.append("s");
        out
    }
}

/// True exactly when `table_id` names one of the configured tables:
/// table identifiers are 1-based and bounded by `max_tables`.
pub fn validate_table_id(table_id: u8, max_tables: u8) -> (r: bool)
    ensures
        r == (0 < table_id && table_id <= max_tables),
{
    table_id > 0 && table_id <= max_tables
}

} // verus!
