use vstd::prelude::*;

verus! {

/// The well-known development accounts a run may sign with.
#[derive(Clone, Copy, Debug, PartialEq, Eq)]
pub enum Account {
    Alice,
    Bob,
    Charlie,
    Dave,
    Eve,
    Ferdie,
    One,
    Two,
}

/// A configuration fault, detected before any network activity.
#[derive(Clone, Copy, Debug, PartialEq, Eq)]
pub enum ConfigError {
    UnknownAccount,
    SizeOutOfRange,
    CountOutOfRange,
    FillNotSingleByte,
}

/// The lower-case ASCII form of one byte.
pub open spec fn lower_byte(c: u8) -> u8 {
    if 65 <= c && c <= 90 {
        (c + 32) as u8
    } else {
        c
    }
}

/// The lower-case ASCII form of a byte sequence.
pub open spec fn lower_seq(s: Seq<u8>) -> Seq<u8> {
    s.map_values(|c: u8| lower_byte(c))
}

/// The canonical (lower-case) name of each account.
pub open spec fn account_name(a: Account) -> Seq<u8> {
    match a {
        Account::Alice => seq![97u8, 108u8, 105u8, 99u8, 101u8],
        Account::Bob => seq![98u8, 111u8, 98u8],
        Account::Charlie => seq![99u8, 104u8, 97u8, 114u8, 108u8, 105u8, 101u8],
        Account::Dave => seq![100u8, 97u8, 118u8, 101u8],
        Account::Eve => seq![101u8, 118u8, 101u8],
        Account::Ferdie => seq![102u8, 101u8, 114u8, 100u8, 105u8, 101u8],
        Account::One => seq![111u8, 110u8, 101u8],
        Account::Two => seq![116u8, 119u8, 111u8],
    }
}

/// Which account a canonical name denotes, if any.
pub open spec fn known_account(s: Seq<u8>) -> Option<Account> {
    if s == account_name(Account::Alice) {
        Some(Account::Alice)
    } else if s == account_name(Account::Bob) {
        Some(Account::Bob)
    } else if s == account_name(Account::Charlie) {
        Some(Account::Charlie)
    } else if s == account_name(Account::Dave) {
        Some(Account::Dave)
    } else if s == account_name(Account::Eve) {
        Some(Account::Eve)
    } else if s == account_name(Account::Ferdie) {
        Some(Account::Ferdie)
    } else if s == account_name(Account::One) {
        Some(Account::One)
    } else if s == account_name(Account::Two) {
        Some(Account::Two)
    } else {
        None
    }
}

/// The canonical name of an account, as bytes.
pub fn account_name_bytes(a: Account) -> (r: Vec<u8>)
    ensures
        r@ == account_name(a),
{
    let mut r: Vec<u8> = Vec::new();
    match a {
        Account::Alice => {
            r.push(97u8);
            r.push(108u8);
            r.push(105u8);
            r.push(99u8);
            r.push(101u8);
        },
        Account::Bob => {
            r.push(98u8);
            r.push(111u8);
            r.push(98u8);
        },
        Account::Charlie => {
            r.push(99u8);
            r.push(104u8);
            r.push(97u8);
            r.push(114u8);
            r.push(108u8);
            r.push(105u8);
            r.push(101u8);
        },
        Account::Dave => {
            r.push(100u8);
            r.push(97u8);
            r.push(118u8);
            r.push(101u8);
        },
        Account::Eve => {
            r.push(101u8);
            r.push(118u8);
            r.push(101u8);
        },
        Account::Ferdie => {
            r.push(102u8);
            r.push(101u8);
            r.push(114u8);
            r.push(100u8);
            r.push(105u8);
            r.push(101u8);
        },
        Account::One => {
            r.push(111u8);
            r.push(110u8);
            r.push(101u8);
        },
        Account::Two => {
            r.push(116u8);
            r.push(119u8);
            r.push(111u8);
        },
    }
    assert(r@ =~= account_name(a));
    r
}

/// Lower-cases a name byte-wise, ASCII letters only.
pub fn to_lower_bytes(name: &[u8]) -> (r: Vec<u8>)
    ensures
        r@ == lower_seq(name@),
{
    let mut r: Vec<u8> = Vec::new();
    let mut i: usize = 0;
    while i < name.len()
        invariant
            i <= name@.len(),
            r@ == lower_seq(name@.subrange(0, i as int)),
        decreases name@.len() - i,
    {
        let c = name[i];
        if 65 <= c && c <= 90 {
            r.push(c + 32);
        } else {
            r.push(c);
        }
        i = i + 1;
        assert(r@ =~= lower_seq(name@.subrange(0, i as int)));
    }
    assert(name@.subrange(0, name@.len() as int) =~= name@);
    r
}

/// Whether two byte vectors hold the same bytes.
fn bytes_eq(a: &Vec<u8>, b: &Vec<u8>) -> (r: bool)
    ensures
        r <==> a@ == b@,
{
    if a.len() != b.len() {
        return false;
    }
    let mut i: usize = 0;
    while i < a.len()
        invariant
            i <= a@.len(),
            a@.len() == b@.len(),
            forall|k: int| 0 <= k < i ==> a@[k] == b@[k],
        decreases a@.len() - i,
    {
        if a[i] != b[i] {
            return false;
        }
        i = i + 1;
    }
    assert(a@ =~= b@);
    true
}

/// Which account the given name denotes, matched case-insensitively.
pub fn parse_account(name: &[u8]) -> (r: Option<Account>)
    ensures
        r == known_account(lower_seq(name@)),
{
    let low = to_lower_bytes(name);
    if bytes_eq(&low, &account_name_bytes(Account::Alice)) {
        Some(Account::Alice)
    } else if bytes_eq(&low, &account_name_bytes(Account::Bob)) {
        Some(Account::Bob)
    } else if bytes_eq(&low, &account_name_bytes(Account::Charlie)) {
        Some(Account::Charlie)
    } else if bytes_eq(&low, &account_name_bytes(Account::Dave)) {
        Some(Account::Dave)
    } else if bytes_eq(&low, &account_name_bytes(Account::Eve)) {
        Some(Account::Eve)
    } else if bytes_eq(&low, &account_name_bytes(Account::Ferdie)) {
        Some(Account::Ferdie)
    } else if bytes_eq(&low, &account_name_bytes(Account::One)) {
        Some(Account::One)
    } else if bytes_eq(&low, &account_name_bytes(Account::Two)) {
        Some(Account::Two)
    } else {
        None
    }
}

/// Validates an account name: accepted exactly when its lower-case form is
/// one of the well-known names; the accepted value is that lower-case form.
pub fn validate_account(name: &[u8]) -> (r: Result<Vec<u8>, ConfigError>)
    ensures
        match r {
            Ok(v) => v@ == lower_seq(name@) && known_account(lower_seq(name@)) is Some,
            Err(e) => e == ConfigError::UnknownAccount && known_account(lower_seq(name@)) is None,
        },
{
    let low = to_lower_bytes(name);
    match parse_account(name) {
        Some(_) => Ok(low),
        None => Err(ConfigError::UnknownAccount),
    }
}

/// The default fill byte for an account: the first byte of its name.
pub fn default_fill_byte(a: Account) -> (r: u8)
    ensures
        r == account_name(a)[0],
{
    match a {
        Account::Alice => 97u8,
        Account::Bob => 98u8,
        Account::Charlie => 99u8,
        Account::Dave => 100u8,
        Account::Eve => 101u8,
        Account::Ferdie => 102u8,
        Account::One => 111u8,
        Account::Two => 116u8,
    }
}

/// Validates the fill character: it must be a single byte in UTF-8, that is
/// an ASCII character; the accepted value is that byte.
pub fn fill_byte(ch: char) -> (r: Result<u8, ConfigError>)
    ensures
        match r {
            Ok(b) => (ch as u32) < 128 && b == (ch as u8),
            Err(e) => e == ConfigError::FillNotSingleByte && (ch as u32) >= 128,
        },
{
    if (ch as u32) < 128 {
        Ok(ch as u8)
    } else {
        Err(ConfigError::FillNotSingleByte)
    }
}

/// Validates the payload size (MiB) and batch count against their allowed
/// ranges; the size is checked first, as the run rejects it first.
pub fn validate_params(size_mb: usize, count: usize) -> (r: Result<(), ConfigError>)
    ensures
        match r {
            Ok(_) => 1 <= size_mb <= 64 && 1 <= count <= 100,
            Err(e) => {
                &&& (e == ConfigError::SizeOutOfRange <==> !(1 <= size_mb <= 64))
                &&& (e == ConfigError::CountOutOfRange <==> (1 <= size_mb <= 64 && !(1 <= count
                    <= 100)))
            },
        },
{
    if size_mb < 1 || size_mb > 64 {
        Err(ConfigError::SizeOutOfRange)
    } else if count < 1 || count > 100 {
        Err(ConfigError::CountOutOfRange)
    } else {
        Ok(())
    }
}

/// The payload length in bytes for a size given in MiB.
pub fn len_bytes(size_mb: usize) -> (r: usize)
    requires
        size_mb <= 64,
    ensures
        r == size_mb * 1048576,
{
    size_mb * 1024 * 1024
}

} // verus!
