//! The settings that the market starts with.
use vstd::prelude::*;
use vstd::string::StrSliceExecFns;

verus! {

/// The settings of the market: where it listens, the ledger it reports to,
/// and the account it trades under.
#[derive(Clone, Debug, PartialEq, Eq)]
pub struct Config {
    pub host: String,
    pub port: u16,
    pub ledger_host: Option<String>,
    pub market_username: String,
    pub market_password: String,
}

impl Default for Config {
    fn default() -> (r: Config)
        ensures
            r.host@ == "127.0.0.1"@,
            r.port == 3000,
            r.ledger_host is None,
            r.market_username@ == "market"@,
            r.market_password@ == "PLEASE CHANGE"@,
    {
        Config {
            host: "127.0.0.1".to_owned(),
            port: 3000,
            ledger_host: None,
            market_username: "market".to_owned(),
            market_password: "PLEASE CHANGE".to_owned(),
        }
    }
}

/// The pieces of `s` between the dots, as `str::split('.')` gives them.
pub open spec fn split_dots(s: Seq<char>) -> Seq<Seq<char>>
    decreases s.len(),
{
    if s.len() == 0 {
        seq![Seq::<char>::empty()]
    } else {
        let prev = split_dots(s.drop_last());
        if s.last() == '.' {
            prev.push(Seq::<char>::empty())
        } else {
            prev.update(prev.len() - 1, prev.last().push(s.last()))
        }
    }
}

/// Whether every character of `d` is an ASCII digit.
pub open spec fn all_digits(d: Seq<char>) -> bool {
    forall|i: int| 0 <= i < d.len() ==> '0' <= #[trigger] d[i] <= '9'
}

/// The number that the decimal digits `d` write.
pub open spec fn digits_value(d: Seq<char>) -> nat
    decreases d.len(),
{
    if d.len() == 0 {
        0
    } else {
        digits_value(d.drop_last()) * 10 + (d.last() as nat - '0' as nat) as nat
    }
}

/// `p` without its leading `+`, where it has one.
pub open spec fn unsigned_digits(p: Seq<char>) -> Seq<char> {
    if p.len() > 0 && p[0] == '+' {
        p.drop_first()
    } else {
        p
    }
}

/// What `str::parse::<u8>` gives for `p`: an optional `+`, then one or more
/// decimal digits whose value fits in a byte.
pub open spec fn parse_u8_spec(p: Seq<char>) -> Option<u8> {
    let d = unsigned_digits(p);
    if d.len() > 0 && all_digits(d) && digits_value(d) <= 255 {
        Some(digits_value(d) as u8)
    } else {
        None
    }
}

/// The bytes that the pieces `ps` parse to, in order, leaving out those that
/// do not parse.
pub open spec fn parsed_bytes(ps: Seq<Seq<char>>) -> Seq<u8>
    decreases ps.len(),
{
    if ps.len() == 0 {
        Seq::<u8>::empty()
    } else {
        let rest = parsed_bytes(ps.drop_last());
        match parse_u8_spec(ps.last()) {
            Some(b) => rest.push(b),
            None => rest,
        }
    }
}

/// The address that the dotted host `s` gives: its first four pieces that
/// parse as bytes, and zeros for any missing.
pub open spec fn host_address(s: Seq<char>) -> Seq<u8> {
    let b = parsed_bytes(split_dots(s));
    Seq::new(4, |i: int| if i < b.len() { b[i] } else { 0u8 })
}

proof fn lemma_split_dots_nonempty(s: Seq<char>)
    ensures
        split_dots(s).len() >= 1,
    decreases s.len(),
{
    if s.len() > 0 {
        lemma_split_dots_nonempty(s.drop_last());
    }
}

/// What `str::parse::<u8>` gives for the characters `p`.
pub fn parse_u8(p: &Vec<char>) -> (r: Option<u8>)
    ensures
        r == parse_u8_spec(p@),
{
    let n = p.len();
    let start: usize = if n > 0 && p[0] == '+' {
        1
    } else {
        0
    };
    let ghost d = unsigned_digits(p@);
    assert(d == p@.subrange(start as int, n as int));
    if start == n {
        return None;
    }
    let mut v: u32 = 0;
    let mut i: usize = start;
    while i < n
        invariant
            start <= i <= n,
            n == p@.len(),
            d == p@.subrange(start as int, n as int),
            d == unsigned_digits(p@),
            all_digits(p@.subrange(start as int, i as int)),
            v == digits_value(p@.subrange(start as int, i as int)),
            v <= 255,
        decreases n - i,
    {
        let c = p[i];
        let ghost done = p@.subrange(start as int, i + 1);
        assert(done.drop_last() == p@.subrange(start as int, i as int));
        if c < '0' || c > '9' {
            assert(!all_digits(d)) by {
                let k = i - start;
                assert(d[k] == c);
                assert(!('0' <= d[k] <= '9'));
            }
            return None;
        }
        v = v * 10 + (c as u32 - '0' as u32);
        if v > 255 {
            proof {
                if all_digits(d) {
                    lemma_digits_value_grows(d, (i + 1 - start) as int);
                    assert(d.subrange(0, (i + 1 - start) as int) == done);
                }
            }
            return None;
        }
        i = i + 1;
    }
    assert(p@.subrange(start as int, i as int) == d);
    Some(v as u8)
}

proof fn lemma_digits_value_grows(d: Seq<char>, k: int)
    requires
        0 <= k <= d.len(),
        all_digits(d),
    ensures
        digits_value(d.subrange(0, k)) <= digits_value(d),
    decreases d.len() - k,
{
    if k < d.len() {
        lemma_digits_value_grows(d, k + 1);
        assert(d.subrange(0, k + 1).drop_last() == d.subrange(0, k));
    } else {
        assert(d.subrange(0, k) == d);
    }
}

impl Config {
    /// The address to listen on: the first four pieces of the dotted host that
    /// parse as bytes, zeros for any missing.
    pub fn get_host(&self) -> (r: [u8; 4])
        ensures
            r@ == host_address(self.host@),
    {
        let s = self.host.as_str();
        let n = s.unicode_len();
        let mut bytes: Vec<u8> = Vec::new();
        let mut piece: Vec<char> = Vec::new();
        let ghost mut done: Seq<Seq<char>> = Seq::empty();
        let mut i: usize = 0;
        while i < n
            invariant
                i <= n,
                n == s@.len(),
                s@ == self.host@,
                split_dots(s@.subrange(0, i as int)) == done.push(piece@),
                bytes@ == parsed_bytes(done),
            decreases n - i,
        {
            let c = s.get_char(i);
            let ghost prefix = s@.subrange(0, i + 1);
            assert(prefix.drop_last() == s@.subrange(0, i as int));
            if c == '.' {
                if let Some(b) = parse_u8(&piece) {
                    bytes.push(b);
                }
                proof {
                    assert(done.push(piece@).drop_last() == done);
                    done = done.push(piece@);
                }
                piece = Vec::new();
                assert(split_dots(prefix) == done.push(piece@));
            } else {
                piece.push(c);
                assert(split_dots(prefix) =~= done.push(piece@));
            }
            i = i + 1;
        }
        assert(s@.subrange(0, n as int) == s@);
        if let Some(b) = parse_u8(&piece) {
            bytes.push(b);
        }
        assert(done.push(piece@).drop_last() == done);
        let mut res: [u8; 4] = [0; 4];
        let mut j: usize = 0;
        while j < 4 && j < bytes.len()
            invariant
                j <= 4,
                j <= bytes@.len(),
                bytes@ == parsed_bytes(split_dots(self.host@)),
                forall|t: int| 0 <= t < j ==> res@[t] == bytes@[t],
                forall|t: int| j <= t < 4 ==> res@[t] == 0,
                res@.len() == 4,
            decreases 4 - j,
        {
            res[j] = bytes[j];
            j = j + 1;
        }
        assert(res@ =~= host_address(self.host@));
        res
    }

    pub fn get_port(&self) -> (r: u16)
        ensures
            r == self.port,
    {
        self.port
    }

    pub fn get_ledger_host(&self) -> (r: Option<&String>)
        ensures
            r == match self.ledger_host {
                Some(h) => Some(&h),
                None => None::<&String>,
            },
    {
        self.ledger_host.as_ref()
    }

    pub fn get_market_username(&self) -> (r: &str)
        ensures
            r@ == self.market_username@,
    {
        self.market_username.as_str()
    }

    pub fn get_market_password(&self) -> (r: &str)
        ensures
            r@ == self.market_password@,
    {
        self.market_password.as_str()
    }
}

} // verus!
