//! How an out-of-band command is written for a Telnet client: as JSON behind
//! the command's name for GMCP, and as variables, arrays and tables for MSDP.

use crate::net::telnet::message::append_bytes;
use vstd::prelude::*;
use vstd::utf8::encode_utf8;

verus! {

/// Opens an MSDP variable's name; in a status report, a name.
pub const VAR: u8 = 1;

/// Opens an MSDP value; in a status report, a value.
pub const VAL: u8 = 2;

pub const TABLE_OPEN: u8 = 3;

pub const TABLE_CLOSE: u8 = 4;

pub const ARRAY_OPEN: u8 = 5;

pub const ARRAY_CLOSE: u8 = 6;

// ---------------------------------------------------------------------------
// Names and values
// ---------------------------------------------------------------------------
/// Names and values in a row: before each name a `VAR`, before each value a
/// `VAL`.
pub open spec fn named_values(pairs: Seq<(String, String)>) -> Seq<u8>
    decreases pairs.len(),
{
    if pairs.len() == 0 {
        Seq::empty()
    } else {
        named_values(pairs.drop_last()) + seq![VAR] + encode_utf8(pairs.last().0@) + seq![VAL]
            + encode_utf8(pairs.last().1@)
    }
}

/// Values in a row, a `VAL` before each.
pub open spec fn values(items: Seq<String>) -> Seq<u8>
    decreases items.len(),
{
    if items.len() == 0 {
        Seq::empty()
    } else {
        values(items.drop_last()) + seq![VAL] + encode_utf8(items.last()@)
    }
}

/// An MSDP array.
pub open spec fn msdp_array(items: Seq<String>) -> Seq<u8> {
    seq![ARRAY_OPEN] + values(items) + seq![ARRAY_CLOSE]
}

/// An MSDP table.
pub open spec fn msdp_table(pairs: Seq<(String, String)>) -> Seq<u8> {
    seq![TABLE_OPEN] + named_values(pairs) + seq![TABLE_CLOSE]
}

/// The MSDP value of a command's arguments: nothing where there are none,
/// the argument itself where it is the only one, an array of the plain
/// arguments, a table of the named ones, and an array of both where there
/// are both.
pub open spec fn msdp_value(args: Seq<String>, kwargs: Seq<(String, String)>) -> Seq<u8> {
    if kwargs.len() == 0 {
        if args.len() == 0 {
            Seq::empty()
        } else if args.len() == 1 {
            encode_utf8(args[0]@)
        } else {
            msdp_array(args)
        }
    } else if args.len() == 0 {
        msdp_table(kwargs)
    } else {
        seq![ARRAY_OPEN, VAL] + msdp_array(args) + seq![VAL] + msdp_table(kwargs) + seq![
            ARRAY_CLOSE,
        ]
    }
}

/// The payload of an MSDP sub-negotiation: the command as a variable, and
/// its arguments as the value.
pub open spec fn msdp_payload(cmd: Seq<char>, args: Seq<String>, kwargs: Seq<(String, String)>) -> Seq<
    u8,
> {
    seq![VAR] + encode_utf8(cmd) + seq![VAL] + msdp_value(args, kwargs)
}

// ---------------------------------------------------------------------------
// JSON
// ---------------------------------------------------------------------------
/// The hexadecimal digit of a number below 16, in lower case.
pub open spec fn hex_digit(n: int) -> u8 {
    if n < 10 {
        (48 + n) as u8
    } else {
        (87 + n) as u8
    }
}

/// A byte of a text as it stands inside a JSON string: a backslash before a
/// quotation mark and before a backslash, `\u00` and two digits for a control
/// character, and any other byte as it is.
pub open spec fn json_byte(b: u8) -> Seq<u8> {
    if b == 0x22 || b == 0x5C {
        seq![0x5Cu8, b]
    } else if b < 0x20 {
        seq![0x5Cu8, 0x75u8, 0x30u8, 0x30u8, hex_digit(b as int / 16), hex_digit(b as int % 16)]
    } else {
        seq![b]
    }
}

/// The bytes of a text as they stand inside a JSON string.
pub open spec fn json_escaped(bytes: Seq<u8>) -> Seq<u8>
    decreases bytes.len(),
{
    if bytes.len() == 0 {
        Seq::empty()
    } else {
        json_escaped(bytes.drop_last()) + json_byte(bytes.last())
    }
}

/// A text as a JSON string.
pub open spec fn json_string(text: Seq<char>) -> Seq<u8> {
    seq![0x22u8] + json_escaped(encode_utf8(text)) + seq![0x22u8]
}

/// JSON strings with commas between them.
pub open spec fn json_items(items: Seq<String>) -> Seq<u8>
    decreases items.len(),
{
    if items.len() == 0 {
        Seq::empty()
    } else {
        json_items(items.drop_last()) + (if items.len() > 1 {
            seq![0x2Cu8]
        } else {
            Seq::empty()
        }) + json_string(items.last()@)
    }
}

/// Members of a JSON object with commas between them.
pub open spec fn json_members(pairs: Seq<(String, String)>) -> Seq<u8>
    decreases pairs.len(),
{
    if pairs.len() == 0 {
        Seq::empty()
    } else {
        json_members(pairs.drop_last()) + (if pairs.len() > 1 {
            seq![0x2Cu8]
        } else {
            Seq::empty()
        }) + json_string(pairs.last().0@) + seq![0x3Au8] + json_string(pairs.last().1@)
    }
}

/// A JSON array of strings.
pub open spec fn json_array(items: Seq<String>) -> Seq<u8> {
    seq![0x5Bu8] + json_items(items) + seq![0x5Du8]
}

/// A JSON object whose values are strings.
pub open spec fn json_object(pairs: Seq<(String, String)>) -> Seq<u8> {
    seq![0x7Bu8] + json_members(pairs) + seq![0x7Du8]
}

/// The JSON value of a command's arguments: the argument itself where it is
/// the only one, an array of the plain arguments, an object of the named
/// ones, and an array of both where there are both.
pub open spec fn gmcp_data(args: Seq<String>, kwargs: Seq<(String, String)>) -> Seq<u8> {
    if kwargs.len() == 0 {
        if args.len() == 1 {
            json_string(args[0]@)
        } else {
            json_array(args)
        }
    } else if args.len() == 0 {
        json_object(kwargs)
    } else {
        seq![0x5Bu8] + json_array(args) + seq![0x2Cu8] + json_object(kwargs) + seq![0x5Du8]
    }
}

/// The payload of a GMCP sub-negotiation: the name of the command, and
/// behind a space the JSON value of its arguments, if it has any.
pub open spec fn gmcp_payload(cmd: Seq<char>, args: Seq<String>, kwargs: Seq<(String, String)>) -> Seq<
    u8,
> {
    if args.len() == 0 && kwargs.len() == 0 {
        encode_utf8(cmd)
    } else {
        encode_utf8(cmd) + seq![0x20u8] + gmcp_data(args, kwargs)
    }
}

// ---------------------------------------------------------------------------
// Writing
// ---------------------------------------------------------------------------
/// Appends names and values in a row.
pub fn push_named_values(out: &mut Vec<u8>, pairs: &Vec<(String, String)>)
    ensures
        final(out)@ == old(out)@ + named_values(pairs@),
{
    let n: usize = pairs.len();
    let mut i: usize = 0;
    assert(pairs@.take(0) =~= Seq::<(String, String)>::empty());
    assert(out@ =~= old(out)@ + named_values(pairs@.take(0)));
    while i < n
        invariant
            n == pairs@.len(),
            0 <= i <= n,
            out@ == old(out)@ + named_values(pairs@.take(i as int)),
        decreases n - i,
    {
        assert(pairs@.take(i as int + 1).drop_last() =~= pairs@.take(i as int));
        out.push(VAR);
        append_bytes(out, pairs[i].0.as_str().as_bytes());
        out.push(VAL);
        append_bytes(out, pairs[i].1.as_str().as_bytes());
        i += 1;
        assert(out@ =~= old(out)@ + named_values(pairs@.take(i as int)));
    }
    assert(pairs@.take(n as int) =~= pairs@);
}

/// Appends values in a row.
pub fn push_values(out: &mut Vec<u8>, items: &Vec<String>)
    ensures
        final(out)@ == old(out)@ + values(items@),
{
    let n: usize = items.len();
    let mut i: usize = 0;
    assert(items@.take(0) =~= Seq::<String>::empty());
    assert(out@ =~= old(out)@ + values(items@.take(0)));
    while i < n
        invariant
            n == items@.len(),
            0 <= i <= n,
            out@ == old(out)@ + values(items@.take(i as int)),
        decreases n - i,
    {
        assert(items@.take(i as int + 1).drop_last() =~= items@.take(i as int));
        out.push(VAL);
        append_bytes(out, items[i].as_str().as_bytes());
        i += 1;
        assert(out@ =~= old(out)@ + values(items@.take(i as int)));
    }
    assert(items@.take(n as int) =~= items@);
}

/// Appends an MSDP array.
pub fn push_msdp_array(out: &mut Vec<u8>, items: &Vec<String>)
    ensures
        final(out)@ == old(out)@ + msdp_array(items@),
{
    out.push(ARRAY_OPEN);
    push_values(out, items);
    out.push(ARRAY_CLOSE);
    assert(out@ =~= old(out)@ + msdp_array(items@));
}

/// Appends an MSDP table.
pub fn push_msdp_table(out: &mut Vec<u8>, pairs: &Vec<(String, String)>)
    ensures
        final(out)@ == old(out)@ + msdp_table(pairs@),
{
    out.push(TABLE_OPEN);
    push_named_values(out, pairs);
    out.push(TABLE_CLOSE);
    assert(out@ =~= old(out)@ + msdp_table(pairs@));
}

/// The payload of an MSDP sub-negotiation for a command and its arguments.
pub fn encode_msdp(cmd: &str, args: &Vec<String>, kwargs: &Vec<(String, String)>) -> (out: Vec<u8>)
    ensures
        out@ == msdp_payload(cmd@, args@, kwargs@),
{
    let mut out: Vec<u8> = Vec::new();
    out.push(VAR);
    append_bytes(&mut out, cmd.as_bytes());
    out.push(VAL);
    let ghost head = out@;
    assert(head =~= seq![VAR] + encode_utf8(cmd@) + seq![VAL]);
    if kwargs.len() == 0 {
        if args.len() == 0 {
        } else if args.len() == 1 {
            append_bytes(&mut out, args[0].as_str().as_bytes());
        } else {
            push_msdp_array(&mut out, args);
        }
    } else if args.len() == 0 {
        push_msdp_table(&mut out, kwargs);
    } else {
        out.push(ARRAY_OPEN);
        out.push(VAL);
        push_msdp_array(&mut out, args);
        out.push(VAL);
        push_msdp_table(&mut out, kwargs);
        out.push(ARRAY_CLOSE);
    }
    assert(out@ =~= head + msdp_value(args@, kwargs@));
    out
}

/// The hexadecimal digit of a number below 16, in lower case.
pub fn hex(n: u8) -> (d: u8)
    requires
        n < 16,
    ensures
        d == hex_digit(n as int),
{
    if n < 10 {
        48 + n
    } else {
        87 + n
    }
}

/// Appends a text as a JSON string.
pub fn push_json_string(out: &mut Vec<u8>, text: &str)
    ensures
        final(out)@ == old(out)@ + json_string(text@),
{
    let bytes = text.as_bytes();
    let n: usize = bytes.len();
    out.push(0x22);
    let mut i: usize = 0;
    assert(bytes@.take(0) =~= Seq::<u8>::empty());
    assert(out@ =~= old(out)@ + seq![0x22u8] + json_escaped(bytes@.take(0)));
    while i < n
        invariant
            n == bytes@.len(),
            0 <= i <= n,
            bytes@ == encode_utf8(text@),
            out@ == old(out)@ + seq![0x22u8] + json_escaped(bytes@.take(i as int)),
        decreases n - i,
    {
        assert(bytes@.take(i as int + 1).drop_last() =~= bytes@.take(i as int));
        let ghost before = out@;
        let b: u8 = bytes[i];
        if b == 0x22 || b == 0x5C {
            out.push(0x5C);
            out.push(b);
        } else if b < 0x20 {
            out.push(0x5C);
            out.push(0x75);
            out.push(0x30);
            out.push(0x30);
            out.push(hex(b / 16));
            out.push(hex(b % 16));
        } else {
            out.push(b);
        }
        assert(out@ =~= before + json_byte(b));
        i += 1;
        assert(out@ =~= old(out)@ + seq![0x22u8] + json_escaped(bytes@.take(i as int)));
    }
    assert(bytes@.take(n as int) =~= bytes@);
    out.push(0x22);
    assert(out@ =~= old(out)@ + json_string(text@));
}

/// Appends a JSON array of strings.
pub fn push_json_array(out: &mut Vec<u8>, items: &Vec<String>)
    ensures
        final(out)@ == old(out)@ + json_array(items@),
{
    out.push(0x5B);
    let n: usize = items.len();
    let mut i: usize = 0;
    assert(items@.take(0) =~= Seq::<String>::empty());
    assert(out@ =~= old(out)@ + seq![0x5Bu8] + json_items(items@.take(0)));
    while i < n
        invariant
            n == items@.len(),
            0 <= i <= n,
            out@ == old(out)@ + seq![0x5Bu8] + json_items(items@.take(i as int)),
        decreases n - i,
    {
        assert(items@.take(i as int + 1).drop_last() =~= items@.take(i as int));
        if i > 0 {
            out.push(0x2C);
        }
        push_json_string(out, items[i].as_str());
        i += 1;
        assert(out@ =~= old(out)@ + seq![0x5Bu8] + json_items(items@.take(i as int)));
    }
    assert(items@.take(n as int) =~= items@);
    out.push(0x5D);
    assert(out@ =~= old(out)@ + json_array(items@));
}

/// Appends a JSON object whose values are strings.
pub fn push_json_object(out: &mut Vec<u8>, pairs: &Vec<(String, String)>)
    ensures
        final(out)@ == old(out)@ + json_object(pairs@),
{
    out.push(0x7B);
    let n: usize = pairs.len();
    let mut i: usize = 0;
    assert(pairs@.take(0) =~= Seq::<(String, String)>::empty());
    assert(out@ =~= old(out)@ + seq![0x7Bu8] + json_members(pairs@.take(0)));
    while i < n
        invariant
            n == pairs@.len(),
            0 <= i <= n,
            out@ == old(out)@ + seq![0x7Bu8] + json_members(pairs@.take(i as int)),
        decreases n - i,
    {
        assert(pairs@.take(i as int + 1).drop_last() =~= pairs@.take(i as int));
        if i > 0 {
            out.push(0x2C);
        }
        push_json_string(out, pairs[i].0.as_str());
        out.push(0x3A);
        push_json_string(out, pairs[i].1.as_str());
        i += 1;
        assert(out@ =~= old(out)@ + seq![0x7Bu8] + json_members(pairs@.take(i as int)));
    }
    assert(pairs@.take(n as int) =~= pairs@);
    out.push(0x7D);
    assert(out@ =~= old(out)@ + json_object(pairs@));
}

/// The payload of a GMCP sub-negotiation for a command and its arguments.
pub fn encode_gmcp(cmd: &str, args: &Vec<String>, kwargs: &Vec<(String, String)>) -> (out: Vec<u8>)
    ensures
        out@ == gmcp_payload(cmd@, args@, kwargs@),
{
    let mut out: Vec<u8> = Vec::new();
    append_bytes(&mut out, cmd.as_bytes());
    assert(out@ =~= encode_utf8(cmd@));
    if args.len() == 0 && kwargs.len() == 0 {
        return out;
    }
    out.push(0x20);
    let ghost head = out@;
    if kwargs.len() == 0 {
        if args.len() == 1 {
            push_json_string(&mut out, args[0].as_str());
        } else {
            push_json_array(&mut out, args);
        }
    } else if args.len() == 0 {
        push_json_object(&mut out, kwargs);
    } else {
        out.push(0x5B);
        push_json_array(&mut out, args);
        out.push(0x2C);
        push_json_object(&mut out, kwargs);
        out.push(0x5D);
    }
    assert(out@ =~= head + gmcp_data(args@, kwargs@));
    out
}

} // verus!
