use vstd::prelude::*;

use crate::names::{join, join_path};

verus! {

/// The lowercase hexadecimal digit of a value below sixteen.
pub open spec fn hex_char(d: nat) -> char {
    seq!['0', '1', '2', '3', '4', '5', '6', '7', '8', '9', 'a', 'b', 'c', 'd', 'e', 'f'][d as int]
}

/// The last `k` hexadecimal digits of `n`, most significant first.
pub open spec fn hex_digits(n: nat, k: nat) -> Seq<char>
    decreases k,
{
    if k == 0 {
        Seq::empty()
    } else {
        hex_digits(n / 16, (k - 1) as nat).push(hex_char(n % 16))
    }
}

/// The name of the file that a staging area mints for `prefix` when its
/// counter stands at `id`: `<dir>/<prefix>-<id as eight hex digits>`.
pub open spec fn minted_name(dir: Seq<char>, prefix: Seq<char>, id: nat) -> Seq<char> {
    join_path(dir, prefix + seq!['-'] + hex_digits(id, 8))
}

/// The path handed to the system to reserve a staging directory:
/// `<root>/<prefix>-XXXXXX`, whose six `X` the system replaces.
pub open spec fn reservation_path(root: Seq<char>, prefix: Seq<char>) -> Seq<char> {
    join_path(root, prefix + seq!['-', 'X', 'X', 'X', 'X', 'X', 'X'])
}

/// A reserved staging directory and the counter from which it mints unique
/// file names.
pub struct TempDir {
    path: String,
    next_id: u32,
}

fn hex_str(d: u32) -> (r: &'static str)
    requires
        d < 16,
    ensures
        r@ == seq![hex_char(d as nat)],
{
    proof {
        reveal_strlit("0");
        reveal_strlit("1");
        reveal_strlit("2");
        reveal_strlit("3");
        reveal_strlit("4");
        reveal_strlit("5");
        reveal_strlit("6");
        reveal_strlit("7");
        reveal_strlit("8");
        reveal_strlit("9");
        reveal_strlit("a");
        reveal_strlit("b");
        reveal_strlit("c");
        reveal_strlit("d");
        reveal_strlit("e");
        reveal_strlit("f");
    }
    match d {
        0 => "0",
        1 => "1",
        2 => "2",
        3 => "3",
        4 => "4",
        5 => "5",
        6 => "6",
        7 => "7",
        8 => "8",
        9 => "9",
        10 => "a",
        11 => "b",
        12 => "c",
        13 => "d",
        14 => "e",
        _ => "f",
    }
}

/// Appends the last `k` hexadecimal digits of `n` to `s`.
fn push_hex(s: &mut String, n: u32, k: u32)
    ensures
        final(s)@ == old(s)@ + hex_digits(n as nat, k as nat),
    decreases k,
{
    if k > 0 {
        push_hex(s, n / 16, k - 1);
        s.append(hex_str(n % 16));
    }
}

impl TempDir {
    /// The directory's path.
    pub closed spec fn dir(&self) -> Seq<char> {
        self.path@
    }

    /// The counter of the next name to mint.
    pub closed spec fn counter(&self) -> nat {
        self.next_id as nat
    }

    /// The path that reserves a fresh staging directory under `root`.
    pub fn template(root: &str, prefix: &str) -> (r: String)
        ensures
            r@ == reservation_path(root@, prefix@),
    {
        let mut name = String::from_str(prefix);
        proof { reveal_strlit("-XXXXXX"); }
        name.append("-XXXXXX");
        join(root, name.as_str())
    }

    /// Takes charge of the directory that the system reserved at `path`; its
    /// counter starts at zero.
    pub fn new(path: String) -> (r: TempDir)
        ensures
            r.dir() == path@,
            r.counter() == 0,
    {
        TempDir { path, next_id: 0 }
    }

    /// The directory's path.
    pub fn path(&self) -> (r: &str)
        ensures
            r@ == self.dir(),
    {
        self.path.as_str()
    }

    /// Mints the next file name for `prefix` and advances the counter; `None`
    /// once the counter has rendered every value of eight hex digits.
    pub fn create_file(&mut self, prefix: &str) -> (r: Option<String>)
        ensures
            final(self).dir() == old(self).dir(),
            old(self).counter() < u32::MAX ==> {
                &&& r matches Some(p) && p@ == minted_name(old(self).dir(), prefix@, old(self).counter())
                &&& final(self).counter() == old(self).counter() + 1
            },
            old(self).counter() >= u32::MAX ==> r is None && final(self).counter() == old(self).counter(),
    {
        if self.next_id == u32::MAX {
            return None;
        }
        let mut name = String::from_str(prefix);
        proof { reveal_strlit("-"); }
        name.append("-");
        push_hex(&mut name, self.next_id, 8);
        self.next_id = self.next_id + 1;
        Some(join(self.path.as_str(), name.as_str()))
    }
}

proof fn lemma_hex_char_injective(a: nat, b: nat)
    requires
        a < 16,
        b < 16,
        hex_char(a) == hex_char(b),
    ensures
        a == b,
{
    let t = seq!['0', '1', '2', '3', '4', '5', '6', '7', '8', '9', 'a', 'b', 'c', 'd', 'e', 'f'];
    assert(forall|x: int, y: int| 0 <= x < 16 && 0 <= y < 16 && x != y ==> t[x] != t[y]) by {
        assert(t[0] == '0' && t[1] == '1' && t[2] == '2' && t[3] == '3' && t[4] == '4' && t[5] == '5'
            && t[6] == '6' && t[7] == '7' && t[8] == '8' && t[9] == '9' && t[10] == 'a' && t[11] == 'b'
            && t[12] == 'c' && t[13] == 'd' && t[14] == 'e' && t[15] == 'f');
    }
}

proof fn lemma_hex_digits_len(n: nat, k: nat)
    ensures
        hex_digits(n, k).len() == k,
    decreases k,
{
    if k > 0 {
        lemma_hex_digits_len(n / 16, (k - 1) as nat);
    }
}

/// Sixteen to the power `k`.
pub open spec fn pow16(k: nat) -> nat
    decreases k,
{
    if k == 0 {
        1
    } else {
        16 * pow16((k - 1) as nat)
    }
}

proof fn lemma_hex_digits_injective(a: nat, b: nat, k: nat)
    requires
        a < pow16(k),
        b < pow16(k),
        hex_digits(a, k) == hex_digits(b, k),
    ensures
        a == b,
    decreases k,
{
    if k > 0 {
        let k1 = (k - 1) as nat;
        lemma_hex_digits_len(a / 16, k1);
        lemma_hex_digits_len(b / 16, k1);
        let da = hex_digits(a, k);
        let db = hex_digits(b, k);
        assert(da.last() == hex_char(a % 16));
        assert(db.last() == hex_char(b % 16));
        lemma_hex_char_injective(a % 16, b % 16);
        assert(hex_digits(a / 16, k1) =~= da.drop_last());
        assert(hex_digits(b / 16, k1) =~= db.drop_last());
        assert(a / 16 < pow16(k1));
        assert(b / 16 < pow16(k1));
        lemma_hex_digits_injective(a / 16, b / 16, k1);
    } else {
        assert(a == 0 && b == 0);
    }
}

proof fn lemma_minted_suffix(dir: Seq<char>, prefix: Seq<char>, id: nat)
    ensures
        ({
            let m = minted_name(dir, prefix, id);
            m.len() >= 8 && m.subrange(m.len() - 8, m.len() as int) == hex_digits(id, 8)
        }),
{
    lemma_hex_digits_len(id, 8);
    let name = prefix + seq!['-'] + hex_digits(id, 8);
    let m = minted_name(dir, prefix, id);
    assert(name.subrange(name.len() - 8, name.len() as int) =~= hex_digits(id, 8));
    if name.len() > 0 && name[0] == '/' {
    } else if dir.len() == 0 || dir.last() == '/' {
        assert(m.subrange(m.len() - 8, m.len() as int) =~= name.subrange(name.len() - 8, name.len() as int));
    } else {
        assert(m.subrange(m.len() - 8, m.len() as int) =~= name.subrange(name.len() - 8, name.len() as int));
    }
}

/// Names minted by one staging area at two different counter values differ,
/// whatever prefixes they were minted for: the counter's eight hex digits end
/// every name.
pub proof fn lemma_minted_names_differ(dir: Seq<char>, prefix_a: Seq<char>, i: nat, prefix_b: Seq<char>, j: nat)
    requires
        i != j,
        i <= u32::MAX,
        j <= u32::MAX,
    ensures
        minted_name(dir, prefix_a, i) != minted_name(dir, prefix_b, j),
{
    lemma_minted_suffix(dir, prefix_a, i);
    lemma_minted_suffix(dir, prefix_b, j);
    reveal_with_fuel(pow16, 9);
    assert(pow16(8) == 4294967296);
    if minted_name(dir, prefix_a, i) == minted_name(dir, prefix_b, j) {
        lemma_hex_digits_injective(i, j, 8);
    }
}

/// Any run of successive mints from one staging area, with any prefixes,
/// yields pairwise distinct names: the `a`-th of them is minted at counter
/// `start + a`.
pub proof fn lemma_successive_mints_distinct(dir: Seq<char>, prefixes: Seq<Seq<char>>, start: nat)
    requires
        start + prefixes.len() <= u32::MAX + 1,
    ensures
        forall|a: int, b: int|
            0 <= a < b < prefixes.len() ==> minted_name(dir, prefixes[a], (start + a) as nat)
                != minted_name(dir, prefixes[b], (start + b) as nat),
{
    assert forall|a: int, b: int| 0 <= a < b < prefixes.len() implies minted_name(
        dir,
        prefixes[a],
        (start + a) as nat,
    ) != minted_name(dir, prefixes[b], (start + b) as nat) by {
        lemma_minted_names_differ(dir, prefixes[a], (start + a) as nat, prefixes[b], (start + b) as nat);
    }
}

} // verus!
