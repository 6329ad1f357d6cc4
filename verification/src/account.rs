use vstd::prelude::*;

verus! {

/// The fee-paying account as the caller refers to it: either a component
/// address in its canonical text form (an optional `component_` prefix and
/// 64 hex digits), or a wallet account name the wallet service resolves.
#[derive(Debug, PartialEq, Eq)]
pub enum Account {
    Address { address: String },
    Name { name: String },
}

pub ghost enum AccountV {
    Address { address: Seq<char> },
    Name { name: Seq<char> },
}

impl View for Account {
    type V = AccountV;

    open spec fn view(&self) -> AccountV {
        match self {
            Account::Address { address } => AccountV::Address { address: address@ },
            Account::Name { name } => AccountV::Name { name: name@ },
        }
    }
}

impl Clone for Account {
    fn clone(&self) -> (r: Self)
        ensures
            r == *self,
    {
        match self {
            Account::Address { address } => Account::Address { address: address.clone() },
            Account::Name { name } => Account::Name { name: name.clone() },
        }
    }
}

pub open spec fn spec_is_hex_digit(c: char) -> bool {
    ('0' <= c && c <= '9') || ('a' <= c && c <= 'f') || ('A' <= c && c <= 'F')
}

/// Whether the text starts with the component-address prefix.
pub open spec fn spec_has_component_prefix(s: Seq<char>) -> bool {
    s.len() >= 10 && s.subrange(0, 10) == "component_"@
}

/// The digits a component-address text would consist of: the text with its
/// optional `component_` prefix stripped.
pub open spec fn spec_address_digits(s: Seq<char>) -> Seq<char> {
    if spec_has_component_prefix(s) {
        s.skip(10)
    } else {
        s
    }
}

/// Whether the text is a component address: after stripping the optional
/// prefix, exactly 64 hex digits remain.
pub open spec fn spec_is_address_text(s: Seq<char>) -> bool {
    let d = spec_address_digits(s);
    d.len() == 64 && (forall|i: int| 0 <= i < 64 ==> spec_is_hex_digit(#[trigger] d[i]))
}

fn is_hex_digit(c: char) -> (r: bool)
    ensures
        r == spec_is_hex_digit(c),
{
    ('0' <= c && c <= '9') || ('a' <= c && c <= 'f') || ('A' <= c && c <= 'F')
}

fn has_component_prefix(s: &String) -> (r: bool)
    ensures
        r == spec_has_component_prefix(s@),
{
    proof {
        reveal_strlit("component_");
    }
    let prefix = "component_";
    if s.as_str().unicode_len() < 10 {
        return false;
    }
    let mut i: usize = 0;
    while i < 10
        invariant
            i <= 10,
            s@.len() >= 10,
            prefix@ == "component_"@,
            prefix@.len() == 10,
            forall|j: int| 0 <= j < i ==> s@[j] == prefix@[j],
        decreases 10 - i,
    {
        if s.as_str().get_char(i) != prefix.get_char(i) {
            assert(s@.subrange(0, 10) != "component_"@) by {
                assert(s@.subrange(0, 10)[i as int] != "component_"@[i as int]);
            }
            return false;
        }
        i = i + 1;
    }
    assert(s@.subrange(0, 10) =~= "component_"@);
    true
}

/// How account text classifies: address text reads as an address, any
/// other text as a name, the text itself kept unchanged either way.
pub open spec fn spec_parse_account(s: Seq<char>) -> AccountV {
    if spec_is_address_text(s) {
        AccountV::Address { address: s }
    } else {
        AccountV::Name { name: s }
    }
}

/// Classifies account text the way the wallet's address type reads it: text
/// that is a component address (optional `component_` prefix, 64 hex
/// digits) refers to the component directly, anything else is taken as an
/// account name. The text itself is kept unchanged either way.
pub fn parse_account(s: &String) -> (r: Account)
    ensures
        r@ == spec_parse_account(s@),
        spec_is_address_text(s@) ==> r == (Account::Address { address: *s }),
        !spec_is_address_text(s@) ==> r == (Account::Name { name: *s }),
{
    let len = s.as_str().unicode_len();
    let start: usize = if has_component_prefix(s) {
        10
    } else {
        0
    };
    proof {
        if spec_has_component_prefix(s@) {
            assert(spec_address_digits(s@) =~= s@.skip(10));
        }
    }
    if len - start != 64 {
        return Account::Name { name: s.clone() };
    }
    let mut i: usize = 0;
    while i < 64
        invariant
            i <= 64,
            s@.len() == len,
            start == 0 || start == 10,
            start == 10 <==> spec_has_component_prefix(s@),
            len - start == 64,
            forall|j: int| 0 <= j < i ==> spec_is_hex_digit(#[trigger] spec_address_digits(s@)[j]),
        decreases 64 - i,
    {
        let c = s.as_str().get_char(start + i);
        assert(spec_address_digits(s@)[i as int] == s@[start + i as int]);
        if !is_hex_digit(c) {
            assert(!spec_is_address_text(s@));
            return Account::Name { name: s.clone() };
        }
        i = i + 1;
    }
    assert(spec_is_address_text(s@));
    Account::Address { address: s.clone() }
}

} // verus!
