//! Directory browsing: media file records, human-readable sizes, and the
//! browser's sorted listing with its cursor.
use vstd::prelude::*;
use vstd::arithmetic::power2::pow2;
use crate::text::{
    chars_after, chars_after_exec, chars_of, decimal, digit, digit_char, lowercase_chars,
    lowercase_of, push_char, push_chars, push_decimal, string_of,
};

verus! {

/// What `Path::file_name` gives for a path: its last normal component.
pub uninterp spec fn file_name_of(p: Seq<char>) -> Option<Seq<char>>;

/// The index of the last '.' in `n`, or -1 when there is none.
pub open spec fn last_dot(n: Seq<char>) -> int
    decreases n.len(),
{
    if n.len() == 0 {
        -1
    } else if n.last() == '.' {
        n.len() - 1
    } else {
        last_dot(n.drop_last())
    }
}

/// What `Path::extension` gives for a path, as std documents it: nothing
/// when there is no file name, when the file name has no '.', or when its only
/// '.' is its first character; otherwise the part of the file name after the
/// last '.'.
pub open spec fn extension_of(p: Seq<char>) -> Option<Seq<char>> {
    match file_name_of(p) {
        Some(n) => if last_dot(n) <= 0 {
            None
        } else {
            Some(n.skip(last_dot(n) + 1))
        },
        None => None,
    }
}

proof fn lemma_last_dot(n: Seq<char>, j: int)
    requires
        0 <= j <= n.len(),
        forall|k: int| j <= k < n.len() ==> n[k] != '.',
        j > 0 ==> n[j - 1] == '.',
    ensures
        last_dot(n) == j - 1,
    decreases n.len(),
{
    if n.len() > j {
        lemma_last_dot(n.drop_last(), j);
    }
}

/// What `Path::parent` gives for a path: the path without its last component.
pub uninterp spec fn parent_of(p: Seq<char>) -> Option<Seq<char>>;

/// `Path::file_name` of `p` (a `str` path, so the name is valid UTF-8).
#[verifier::external_body]
fn path_file_name(p: &str) -> (r: Option<String>)
    ensures
        match r {
            Some(s) => file_name_of(p@) == Some(s@),
            None => file_name_of(p@) is None,
        },
{
    std::path::Path::new(p).file_name().map(|n| n.to_string_lossy().into_owned())
}

/// The extension of the path `p` (see `extension_of`): the file name split at
/// its last '.'.
fn path_extension(p: &str) -> (r: Option<String>)
    ensures
        match r {
            Some(s) => extension_of(p@) == Some(s@),
            None => extension_of(p@) is None,
        },
{
    match path_file_name(p) {
        Some(name) => {
            let cs = chars_of(name.as_str());
            let mut i: usize = cs.len();
            while i > 0 && cs[i - 1] != '.'
                invariant
                    i <= cs@.len(),
                    forall|k: int| i <= k < cs@.len() ==> cs@[k] != '.',
                decreases i,
            {
                i = i - 1;
            }
            proof {
                lemma_last_dot(cs@, i as int);
            }
            if i <= 1 {
                None
            } else {
                let mut ext: Vec<char> = Vec::new();
                let mut k: usize = i;
                while k < cs.len()
                    invariant
                        i <= k <= cs@.len(),
                        ext@ == cs@.subrange(i as int, k as int),
                    decreases cs@.len() - k,
                {
                    ext.push(cs[k]);
                    assert(cs@.subrange(i as int, k + 1) == cs@.subrange(i as int, k as int).push(cs@[k as int]));
                    k = k + 1;
                }
                assert(ext@ == cs@.skip(i as int));
                Some(string_of(&ext))
            }
        },
        None => None,
    }
}

/// `Path::parent` of `p`.
#[verifier::external_body]
pub(crate) fn path_parent(p: &str) -> (r: Option<String>)
    ensures
        match r {
            Some(s) => parent_of(p@) == Some(s@),
            None => parent_of(p@) is None,
        },
{
    std::path::Path::new(p).parent().map(|n| n.to_string_lossy().into_owned())
}

/// A file or directory as the browser lists it.
#[derive(Debug, Clone)]
pub struct MediaFile {
    pub path: String,
    pub name: String,
    pub size: u64,
    pub extension: String,
}

/// The file extensions treated as video, lower case.
pub open spec fn video_extensions() -> Seq<Seq<char>> {
    seq![
        "mp4"@, "mkv"@, "avi"@, "mov"@, "webm"@, "flv"@, "wmv"@, "m4v"@, "3gp"@, "ogv"@,
    ]
}

/// The file name shown for `path`: its last component, or "Unknown".
pub open spec fn display_name(path: Seq<char>) -> Seq<char> {
    match file_name_of(path) {
        Some(n) => n,
        None => "Unknown"@,
    }
}

/// The lower-cased extension of `path`, or the empty string when it has none.
pub open spec fn lower_extension(path: Seq<char>) -> Seq<char> {
    match extension_of(path) {
        Some(e) => lowercase_of(e),
        None => Seq::empty(),
    }
}

/// `n / d` rounded to the nearest integer, ties to the even one.
pub open spec fn round_half_even(n: nat, d: nat) -> nat {
    let q = n / d;
    let r = n % d;
    if 2 * r > d || (2 * r == d && q % 2 == 1) {
        q + 1
    } else {
        q
    }
}

/// `num / den` written with exactly two decimals, rounded half to even
/// (how `{:.2}` prints the exact value of an `f64`).
pub open spec fn two_decimals(num: nat, den: nat) -> Seq<char> {
    let c = round_half_even(num * 100, den);
    decimal(c / 100) + seq!['.', digit_char(((c % 100) / 10) as int), digit_char((c % 10) as int)]
}

/// Number of binary digits of `n` (0 for 0).
pub open spec fn bit_length(n: nat) -> nat
    decreases n,
{
    if n == 0 {
        0
    } else {
        1 + bit_length(n / 2)
    }
}

/// The value of `n as f64`: `n` rounded to 53 significant bits, ties to even.
pub open spec fn as_f64_value(n: nat) -> nat {
    if bit_length(n) <= 53 {
        n
    } else {
        let p = pow2((bit_length(n) - 53) as nat);
        round_half_even(n, p) * p
    }
}

/// A byte count for people: whole bytes below 1 KiB, else KiB, MiB or GiB
/// with two decimals.
pub open spec fn size_text(size: u64) -> Seq<char> {
    if size < 1024 {
        decimal(size as nat) + seq!['B']
    } else if size < 1048576 {
        two_decimals(size as nat, 1024) + seq!['K', 'B']
    } else if size < 1073741824 {
        two_decimals(size as nat, 1048576) + seq!['M', 'B']
    } else {
        two_decimals(as_f64_value(size as nat), 1073741824) + seq!['G', 'B']
    }
}

proof fn lemma_bit_length_bound(n: nat, m: nat)
    requires
        n < pow2(m),
    ensures
        bit_length(n) <= m,
    decreases m,
{
    if n > 0 {
        if m == 0 {
            vstd::arithmetic::power2::lemma2_to64();
        } else {
            vstd::arithmetic::power2::lemma_pow2_unfold(m);
            lemma_bit_length_bound(n / 2, (m - 1) as nat);
        }
    }
}

fn round_half_even_exec(n: u128, d: u128) -> (q: u128)
    requires
        d > 0,
        d <= 0x1_0000_0000_0000_0000,
        n <= 0x1_0000_0000_0000_0000_0000_0000,
    ensures
        q == round_half_even(n as nat, d as nat),
{
    let q = n / d;
    let r = n % d;
    if 2 * r > d || (2 * r == d && q % 2 == 1) {
        q + 1
    } else {
        q
    }
}

/// `n as f64`, as an exact integer.
fn f64_value(n: u64) -> (v: u128)
    ensures
        v == as_f64_value(n as nat),
        v <= 0x1_0000_0000_0000_0800,
{
    let mut m: u64 = n;
    let mut bl: u64 = 0;
    while m > 0
        invariant
            bl + bit_length(m as nat) == bit_length(n as nat),
            bl <= 64,
            m <= n,
        decreases m,
    {
        proof {
            vstd::arithmetic::power2::lemma2_to64();
            lemma_bit_length_bound(n as nat, 64);
        }
        m = m / 2;
        bl = bl + 1;
    }
    proof {
        vstd::arithmetic::power2::lemma2_to64();
        lemma_bit_length_bound(n as nat, 64);
    }
    if bl <= 53 {
        return n as u128;
    }
    let mut p: u64 = 1;
    let mut i: u64 = 0;
    while i < bl - 53
        invariant
            i <= bl - 53,
            bl <= 64,
            p == pow2(i as nat),
        decreases bl - 53 - i,
    {
        proof {
            vstd::arithmetic::power2::lemma_pow2_unfold((i + 1) as nat);
            vstd::arithmetic::power2::lemma_pow2_strictly_increases(i as nat, 11);
            vstd::arithmetic::power2::lemma2_to64();
        }
        p = p * 2;
        i = i + 1;
    }
    proof {
        vstd::arithmetic::power2::lemma_pow2_pos(i as nat);
        if i < 11 {
            vstd::arithmetic::power2::lemma_pow2_strictly_increases(i as nat, 11);
        }
        vstd::arithmetic::power2::lemma2_to64();
    }
    let q = round_half_even_exec(n as u128, p as u128);
    proof {
        assert(q <= (n as int) / (p as int) + 1);
        assert(q * p <= n + p) by (nonlinear_arith)
            requires
                q <= (n as int) / (p as int) + 1,
                p > 0,
        {
            vstd::arithmetic::div_mod::lemma_fundamental_div_mod(n as int, p as int);
        }
    }
    q * (p as u128)
}

/// Appends `num / den` with two decimals, rounded half to even.
fn push_two_decimals(s: &mut String, num: u128, den: u128)
    requires
        1024 <= den <= 1073741824,
        num <= 0x1_0000_0000_0000_0800,
    ensures
        final(s)@ == old(s)@ + two_decimals(num as nat, den as nat),
{
    let c = round_half_even_exec(num * 100, den);
    proof {
        assert(c <= (num as int * 100) / (den as int) + 1);
        assert((num as int * 100) / (den as int) <= (num as int * 100) / 1024) by {
            vstd::arithmetic::div_mod::lemma_div_is_ordered_by_denominator((num * 100) as int, 1024, den as int);
        }
        assert(c / 100 <= num / 1024 + 1) by (nonlinear_arith)
            requires
                c <= (num as int * 100) / 1024 + 1,
        ;
    }
    push_decimal(s, (c / 100) as u64);
    push_char(s, '.');
    push_char(s, digit(((c % 100) / 10) as u8));
    push_char(s, digit((c % 10) as u8));
}

impl MediaFile {
    /// The record for the file at `path` whose metadata gave `size` bytes.
    pub fn from_path(path: String, size: u64) -> (r: MediaFile)
        ensures
            r.path@ == path@,
            r.name@ == display_name(path@),
            r.extension@ == lower_extension(path@),
            r.size == size,
    {
        let name = match path_file_name(path.as_str()) {
            Some(n) => n,
            None => {
                proof {
                    reveal_strlit("Unknown");
                }
                String::from_str("Unknown")
            },
        };
        let extension = match path_extension(path.as_str()) {
            Some(e) => string_of(&lowercase_chars(e.as_str())),
            None => String::new(),
        };
        MediaFile { path, name, size, extension }
    }

    /// Whether the extension is one of the video extensions.
    pub fn is_video(&self) -> (r: bool)
        ensures
            r == video_extensions().contains(self.extension@),
    {
        let e = &self.extension;
        let r = *e == String::from_str("mp4") || *e == String::from_str("mkv") || *e == String::from_str("avi")
            || *e == String::from_str("mov") || *e == String::from_str("webm") || *e == String::from_str("flv")
            || *e == String::from_str("wmv") || *e == String::from_str("m4v") || *e == String::from_str("3gp")
            || *e == String::from_str("ogv");
        proof {
            let v = video_extensions();
            if r {
                assert(v.contains(e@)) by {
                    if e@ == "mp4"@ { assert(v[0] == e@); }
                    else if e@ == "mkv"@ { assert(v[1] == e@); }
                    else if e@ == "avi"@ { assert(v[2] == e@); }
                    else if e@ == "mov"@ { assert(v[3] == e@); }
                    else if e@ == "webm"@ { assert(v[4] == e@); }
                    else if e@ == "flv"@ { assert(v[5] == e@); }
                    else if e@ == "wmv"@ { assert(v[6] == e@); }
                    else if e@ == "m4v"@ { assert(v[7] == e@); }
                    else if e@ == "3gp"@ { assert(v[8] == e@); }
                    else { assert(v[9] == e@); }
                }
            } else {
                assert forall|i: int| 0 <= i < v.len() implies v[i] != e@ by {}
            }
        }
        r
    }

    /// The size for display, such as "512B", "1.50KB", "700.00MB" or "4.38GB".
    pub fn size_string(&self) -> (s: String)
        ensures
            s@ == size_text(self.size),
    {
        let mut s = String::new();
        if self.size < 1024 {
            push_decimal(&mut s, self.size);
            push_char(&mut s, 'B');
        } else if self.size < 1048576 {
            push_two_decimals(&mut s, self.size as u128, 1024);
            push_char(&mut s, 'K');
            push_char(&mut s, 'B');
        } else if self.size < 1073741824 {
            push_two_decimals(&mut s, self.size as u128, 1048576);
            push_char(&mut s, 'M');
            push_char(&mut s, 'B');
        } else {
            let v = f64_value(self.size);
            push_two_decimals(&mut s, v, 1073741824);
            push_char(&mut s, 'G');
            push_char(&mut s, 'B');
        }
        s
    }
}

} // verus!

verus! {

/// One item read from a directory: its record, and whether it is a directory.
pub struct ListedEntry {
    pub file: MediaFile,
    pub is_dir: bool,
}

/// The sort key of a listed file: its name in lower case.
pub open spec fn name_key(m: MediaFile) -> Seq<char> {
    lowercase_of(m.name@)
}

/// Whether the browser shows a directory item: directories and videos only.
pub open spec fn is_shown(e: ListedEntry) -> bool {
    e.is_dir || video_extensions().contains(e.file.extension@)
}

/// The records of the shown items, in directory order.
pub open spec fn shown_files(s: Seq<ListedEntry>) -> Seq<MediaFile>
    decreases s.len(),
{
    if s.len() == 0 {
        Seq::empty()
    } else if is_shown(s.last()) {
        shown_files(s.drop_last()).push(s.last().file)
    } else {
        shown_files(s.drop_last())
    }
}

/// `x` inserted into `s` before the first item whose key sorts after `x`'s.
pub open spec fn insert_by_name(s: Seq<MediaFile>, x: MediaFile) -> Seq<MediaFile>
    decreases s.len(),
{
    if s.len() == 0 {
        seq![x]
    } else if chars_after(name_key(s[0]), name_key(x)) {
        seq![x] + s
    } else {
        seq![s[0]] + insert_by_name(s.drop_first(), x)
    }
}

/// `s` stably sorted by lower-cased name (items with equal keys keep their order).
pub open spec fn sort_by_name(s: Seq<MediaFile>) -> Seq<MediaFile>
    decreases s.len(),
{
    if s.len() == 0 {
        Seq::empty()
    } else {
        insert_by_name(sort_by_name(s.drop_last()), s.last())
    }
}

/// The label of the entry that leads to the parent directory.
pub open spec fn parent_label() -> Seq<char> {
    ".. (Parent Directory)"@
}

/// `m` is the entry leading to the directory `p`.
pub open spec fn is_parent_entry(m: MediaFile, p: Seq<char>) -> bool {
    &&& m.path@ == p
    &&& m.name@ == parent_label()
    &&& m.size == 0
    &&& m.extension@ == Seq::<char>::empty()
}

/// `files` is the listing of directory `dir` read as `listing`: the parent
/// entry first when `dir` has a parent, then the shown items sorted by name.
pub open spec fn is_listing_of(files: Seq<MediaFile>, dir: Seq<char>, listing: Seq<ListedEntry>) -> bool {
    let items = sort_by_name(shown_files(listing));
    match parent_of(dir) {
        Some(p) => {
            &&& files.len() == items.len() + 1
            &&& is_parent_entry(files[0], p)
            &&& files.drop_first() == items
        },
        None => files == items,
    }
}

/// The cursor kept inside a list of `len` items (0 for an empty list).
pub open spec fn clamp_cursor(i: int, len: int) -> int {
    if len == 0 {
        0
    } else if i < len - 1 {
        i
    } else {
        len - 1
    }
}

/// The cursor one step down, wrapping to the top.
pub open spec fn down_index(i: int, len: int) -> int {
    if len > 0 {
        (i + 1) % len
    } else {
        i
    }
}

/// The cursor one step up, wrapping to the bottom.
pub open spec fn up_index(i: int, len: int) -> int {
    if len > 0 {
        if i == 0 {
            len - 1
        } else {
            i - 1
        }
    } else {
        i
    }
}

/// Files paired with the keys they are sorted by.
pub open spec fn keyed(keys: Seq<Vec<char>>, items: Seq<MediaFile>) -> Seq<(Seq<char>, MediaFile)> {
    Seq::new(items.len(), |i: int| (keys[i]@, items[i]))
}

/// Files paired with their lower-cased names.
pub open spec fn name_keyed(s: Seq<MediaFile>) -> Seq<(Seq<char>, MediaFile)> {
    Seq::new(s.len(), |i: int| (name_key(s[i]), s[i]))
}

/// The files of keyed pairs, in order.
pub open spec fn files_of(s: Seq<(Seq<char>, MediaFile)>) -> Seq<MediaFile> {
    Seq::new(s.len(), |i: int| s[i].1)
}

/// `x` inserted into `s` before the first pair whose key sorts after `x`'s.
pub open spec fn insert_keyed(s: Seq<(Seq<char>, MediaFile)>, x: (Seq<char>, MediaFile)) -> Seq<
    (Seq<char>, MediaFile),
>
    decreases s.len(),
{
    if s.len() == 0 {
        seq![x]
    } else if chars_after(s[0].0, x.0) {
        seq![x] + s
    } else {
        seq![s[0]] + insert_keyed(s.drop_first(), x)
    }
}

/// `s` stably sorted by key (pairs with equal keys keep their order).
pub open spec fn sort_keyed(s: Seq<(Seq<char>, MediaFile)>) -> Seq<(Seq<char>, MediaFile)>
    decreases s.len(),
{
    if s.len() == 0 {
        Seq::empty()
    } else {
        insert_keyed(sort_keyed(s.drop_last()), s.last())
    }
}

proof fn lemma_insert_keyed_at(s: Seq<(Seq<char>, MediaFile)>, x: (Seq<char>, MediaFile), j: int)
    requires
        0 <= j <= s.len(),
        forall|i: int| 0 <= i < j ==> !chars_after(#[trigger] s[i].0, x.0),
        j < s.len() ==> chars_after(s[j].0, x.0),
    ensures
        insert_keyed(s, x) == s.insert(j, x),
    decreases j,
{
    if j == 0 {
        if s.len() == 0 {
            assert(s.insert(0, x) == seq![x]);
        } else {
            assert(s.insert(0, x) == seq![x] + s);
        }
    } else {
        let t = s.drop_first();
        assert forall|i: int| 0 <= i < j - 1 implies !chars_after(#[trigger] t[i].0, x.0) by {
            assert(t[i] == s[i + 1]);
        }
        assert(!chars_after(s[0].0, x.0));
        lemma_insert_keyed_at(t, x, j - 1);
        assert(seq![s[0]] + t.insert(j - 1, x) == s.insert(j, x));
    }
}

proof fn lemma_insert_named(t: Seq<(Seq<char>, MediaFile)>, x: MediaFile)
    requires
        forall|i: int| 0 <= i < t.len() ==> #[trigger] t[i].0 == name_key(t[i].1),
    ensures
        files_of(insert_keyed(t, (name_key(x), x))) == insert_by_name(files_of(t), x),
        forall|i: int|
            0 <= i < insert_keyed(t, (name_key(x), x)).len() ==> #[trigger] insert_keyed(t, (name_key(x), x))[i].0
                == name_key(insert_keyed(t, (name_key(x), x))[i].1),
    decreases t.len(),
{
    let kx = (name_key(x), x);
    let r = insert_keyed(t, kx);
    let ft = files_of(t);
    if t.len() == 0 {
        assert(files_of(r) == seq![x]);
    } else if chars_after(t[0].0, kx.0) {
        assert(ft[0] == t[0].1);
        assert(files_of(r) == seq![x] + ft);
        assert forall|i: int| 0 <= i < r.len() implies #[trigger] r[i].0 == name_key(r[i].1) by {
            if i > 0 {
                assert(r[i] == t[i - 1]);
            }
        }
    } else {
        let u = t.drop_first();
        assert forall|i: int| 0 <= i < u.len() implies #[trigger] u[i].0 == name_key(u[i].1) by {
            assert(u[i] == t[i + 1]);
        }
        lemma_insert_named(u, x);
        let ru = insert_keyed(u, kx);
        assert(ft[0] == t[0].1);
        assert(files_of(u) == ft.drop_first());
        assert(files_of(r) == seq![ft[0]] + files_of(ru));
        assert forall|i: int| 0 <= i < r.len() implies #[trigger] r[i].0 == name_key(r[i].1) by {
            if i > 0 {
                assert(r[i] == ru[i - 1]);
            }
        }
    }
}

proof fn lemma_sort_named(s: Seq<MediaFile>)
    ensures
        files_of(sort_keyed(name_keyed(s))) == sort_by_name(s),
        forall|i: int|
            0 <= i < sort_keyed(name_keyed(s)).len() ==> #[trigger] sort_keyed(name_keyed(s))[i].0 == name_key(
                sort_keyed(name_keyed(s))[i].1,
            ),
    decreases s.len(),
{
    if s.len() == 0 {
        assert(files_of(Seq::<(Seq<char>, MediaFile)>::empty()) == Seq::<MediaFile>::empty());
    } else {
        let k = name_keyed(s);
        assert(k.drop_last() == name_keyed(s.drop_last()));
        lemma_sort_named(s.drop_last());
        lemma_insert_named(sort_keyed(name_keyed(s.drop_last())), s.last());
    }
}

/// `items` stably sorted by their `keys` (`keys[i]` is the key of
/// `items[i]`): items whose keys compare equal keep their order.
pub fn sort_by_keys(items: Vec<MediaFile>, keys: Vec<Vec<char>>) -> (r: Vec<MediaFile>)
    requires
        items@.len() == keys@.len(),
    ensures
        r@ == files_of(sort_keyed(keyed(keys@, items@))),
{
    let ghost all = keyed(keys@, items@);
    let mut items = items;
    let mut keys = keys;
    let mut out_items: Vec<MediaFile> = Vec::new();
    let mut out_keys: Vec<Vec<char>> = Vec::new();
    let ghost mut n: int = 0;
    while items.len() > 0
        invariant
            items@.len() == keys@.len(),
            0 <= n <= all.len(),
            n + items@.len() == all.len(),
            keyed(keys@, items@) == all.skip(n),
            out_items@.len() == out_keys@.len(),
            keyed(out_keys@, out_items@) == sort_keyed(all.take(n)),
        decreases items@.len(),
    {
        let ghost sorted = keyed(out_keys@, out_items@);
        let ghost rest = keyed(keys@, items@);
        let x = items.remove(0);
        let k = keys.remove(0);
        proof {
            assert(rest[0] == all[n]);
            assert(rest[0] == (k@, x));
            assert(keyed(keys@, items@) == all.skip(n + 1)) by {
                assert(keyed(keys@, items@) == rest.drop_first());
            }
        }
        let mut j: usize = 0;
        while j < out_keys.len() && !chars_after_exec(&out_keys[j], &k)
            invariant
                j <= out_keys@.len(),
                out_keys@.len() == out_items@.len(),
                sorted == keyed(out_keys@, out_items@),
                forall|i: int| 0 <= i < j ==> !chars_after(#[trigger] sorted[i].0, k@),
            decreases out_keys@.len() - j,
        {
            assert(sorted[j as int].0 == out_keys@[j as int]@);
            j = j + 1;
        }
        proof {
            if j < out_keys.len() {
                assert(sorted[j as int].0 == out_keys@[j as int]@);
            }
            lemma_insert_keyed_at(sorted, (k@, x), j as int);
        }
        out_items.insert(j, x);
        out_keys.insert(j, k);
        proof {
            assert(keyed(out_keys@, out_items@) == sorted.insert(j as int, (k@, x)));
            let t = all.take(n + 1);
            assert(t.drop_last() == all.take(n));
            assert(t.last() == (k@, x));
            n = n + 1;
        }
    }
    proof {
        assert(all.take(n) == all);
    }
    proof {
        assert(files_of(keyed(out_keys@, out_items@)) == out_items@);
    }
    out_items
}

/// The cursor of `b` is inside its list: 0 when the list is empty, else the
/// index of one of its items.
pub open spec fn cursor_in_list(b: FileBrowser) -> bool {
    if b.spec_files().len() == 0 {
        b.spec_selected_index() == 0
    } else {
        b.spec_selected_index() < b.spec_files().len()
    }
}

/// Lists directories and video files, one of them under the cursor.
pub struct FileBrowser {
    current_path: String,
    files: Vec<MediaFile>,
    selected_index: usize,
}

impl FileBrowser {
    #[verifier::type_invariant]
    spec fn cursor_inside(&self) -> bool {
        if self.files@.len() == 0 {
            self.selected_index == 0
        } else {
            self.selected_index < self.files@.len()
        }
    }

    pub closed spec fn spec_current_path(&self) -> Seq<char> {
        self.current_path@
    }

    pub closed spec fn spec_files(&self) -> Seq<MediaFile> {
        self.files@
    }

    pub closed spec fn spec_selected_index(&self) -> usize {
        self.selected_index
    }

    /// A browser at `start_path`, or at `home` when none is given; it lists
    /// nothing until `refresh` hands it the directory's items.
    pub fn new(start_path: Option<String>, home: String) -> (r: Self)
        ensures
            r.spec_current_path() == (match start_path {
                Some(p) => p@,
                None => home@,
            }),
            r.spec_files().len() == 0,
            r.spec_selected_index() == 0,
            cursor_in_list(r),
    {
        let path = match start_path {
            Some(p) => p,
            None => home,
        };
        FileBrowser { current_path: path, files: Vec::new(), selected_index: 0 }
    }

    /// Replaces the listing with the items of the current directory as read
    /// in `listing`, and keeps the cursor inside the new list.
    pub fn refresh(&mut self, listing: Vec<ListedEntry>)
        ensures
            final(self).spec_current_path() == old(self).spec_current_path(),
            is_listing_of(final(self).spec_files(), old(self).spec_current_path(), listing@),
            final(self).spec_selected_index() == clamp_cursor(
                old(self).spec_selected_index() as int,
                final(self).spec_files().len() as int,
            ),
            cursor_in_list(*final(self)),
    {
        proof {
            use_type_invariant(&*self);
        }
        let ghost all = listing@;
        let mut listing = listing;
        let mut shown: Vec<MediaFile> = Vec::new();
        let mut keys: Vec<Vec<char>> = Vec::new();
        let ghost mut done: Seq<ListedEntry> = Seq::empty();
        while listing.len() > 0
            invariant
                done + listing@ == all,
                shown@ == shown_files(done),
                keys@.len() == shown@.len(),
                forall|i: int| 0 <= i < keys@.len() ==> #[trigger] keys@[i]@ == name_key(shown@[i]),
            decreases listing@.len(),
        {
            let e = listing.remove(0);
            proof {
                assert(done.push(e) + listing@ == all);
                assert(done.push(e).drop_last() == done);
            }
            let is_shown = e.is_dir || e.file.is_video();
            if is_shown {
                let k = lowercase_chars(e.file.name.as_str());
                shown.push(e.file);
                keys.push(k);
            }
            proof {
                if is_shown {
                    assert(shown_files(done.push(e)) == shown_files(done).push(e.file));
                } else {
                    assert(shown_files(done.push(e)) == shown_files(done));
                }
                done = done.push(e);
            }
        }
        proof {
            assert(done == all);
            assert(keyed(keys@, shown@) == name_keyed(shown@));
            lemma_sort_named(shown@);
        }
        let mut items = sort_by_keys(shown, keys);
        let mut files: Vec<MediaFile> = Vec::new();
        match path_parent(self.current_path.as_str()) {
            Some(p) => {
                proof {
                    reveal_strlit(".. (Parent Directory)");
                }
                files.push(MediaFile {
                    path: p,
                    name: String::from_str(".. (Parent Directory)"),
                    size: 0,
                    extension: String::new(),
                });
            },
            None => {},
        }
        let ghost head = files@;
        files.append(&mut items);
        proof {
            if head.len() == 1 {
                assert(files@.drop_first() == sort_by_name(shown_files(all)));
            }
        }
        let len = files.len();
        let sel = if len == 0 {
            0
        } else if self.selected_index < len - 1 {
            self.selected_index
        } else {
            len - 1
        };
        self.selected_index = 0;
        self.files = files;
        self.selected_index = sel;
    }

    /// Moves to `path` and lists it with `listing`, if `path` is a directory;
    /// otherwise nothing changes.
    pub fn navigate_to(&mut self, path: String, is_dir: bool, listing: Vec<ListedEntry>)
        ensures
            is_dir ==> final(self).spec_current_path() == path@,
            is_dir ==> is_listing_of(final(self).spec_files(), path@, listing@),
            is_dir ==> final(self).spec_selected_index() == clamp_cursor(
                old(self).spec_selected_index() as int,
                final(self).spec_files().len() as int,
            ),
            !is_dir ==> *final(self) == *old(self),
            cursor_in_list(*final(self)),
    {
        proof {
            use_type_invariant(&*self);
        }
        if is_dir {
            self.current_path = path;
            self.refresh(listing);
        }
    }

    /// Moves the cursor down one item, wrapping to the top.
    pub fn move_down(&mut self)
        ensures
            final(self).spec_selected_index() == down_index(
                old(self).spec_selected_index() as int,
                old(self).spec_files().len() as int,
            ),
            final(self).spec_files() == old(self).spec_files(),
            final(self).spec_current_path() == old(self).spec_current_path(),
            cursor_in_list(*final(self)),
    {
        proof {
            use_type_invariant(&*self);
        }
        if self.files.len() > 0 {
            self.selected_index = (self.selected_index + 1) % self.files.len();
        }
    }

    /// Moves the cursor up one item, wrapping to the bottom.
    pub fn move_up(&mut self)
        ensures
            final(self).spec_selected_index() == up_index(
                old(self).spec_selected_index() as int,
                old(self).spec_files().len() as int,
            ),
            final(self).spec_files() == old(self).spec_files(),
            final(self).spec_current_path() == old(self).spec_current_path(),
            cursor_in_list(*final(self)),
    {
        proof {
            use_type_invariant(&*self);
        }
        if self.files.len() > 0 {
            self.selected_index = if self.selected_index == 0 {
                self.files.len() - 1
            } else {
                self.selected_index - 1
            };
        }
    }

    /// The item under the cursor, if the list is not empty.
    pub fn get_selected(&self) -> (r: Option<&MediaFile>)
        ensures
            match r {
                Some(m) => self.spec_selected_index() < self.spec_files().len()
                    && *m == self.spec_files()[self.spec_selected_index() as int],
                None => self.spec_files().len() == 0,
            },
    {
        proof {
            use_type_invariant(self);
        }
        if self.selected_index < self.files.len() {
            Some(&self.files[self.selected_index])
        } else {
            None
        }
    }

    pub fn files(&self) -> (r: &[MediaFile])
        ensures
            r@ == self.spec_files(),
    {
        self.files.as_slice()
    }

    pub fn current_path(&self) -> (r: &str)
        ensures
            r@ == self.spec_current_path(),
    {
        self.current_path.as_str()
    }

    /// The cursor; it is always inside the list (see `cursor_in_list`).
    pub fn selected_index(&self) -> (r: usize)
        ensures
            r == self.spec_selected_index(),
            cursor_in_list(*self),
    {
        proof {
            use_type_invariant(self);
        }
        self.selected_index
    }
}

} // verus!

verus! {

/// No item of `s` sorts after a later one.
pub open spec fn sorted_by_name(s: Seq<MediaFile>) -> bool {
    forall|i: int, j: int|
        0 <= i < j < s.len() ==> !chars_after(#[trigger] name_key(s[i]), #[trigger] name_key(s[j]))
}

proof fn lemma_after_asymmetric(a: Seq<char>, b: Seq<char>)
    ensures
        chars_after(a, b) ==> !chars_after(b, a),
    decreases a.len(),
{
    if a.len() > 0 && b.len() > 0 && (a[0] as u32) == (b[0] as u32) {
        lemma_after_asymmetric(a.drop_first(), b.drop_first());
    }
}

proof fn lemma_not_after_transitive(a: Seq<char>, b: Seq<char>, c: Seq<char>)
    ensures
        !chars_after(a, b) && !chars_after(b, c) ==> !chars_after(a, c),
    decreases a.len(),
{
    if a.len() > 0 && b.len() > 0 && c.len() > 0 && (a[0] as u32) == (b[0] as u32) && (b[0] as u32) == (c[0] as u32) {
        lemma_not_after_transitive(a.drop_first(), b.drop_first(), c.drop_first());
    }
}

proof fn lemma_insert_members(t: Seq<MediaFile>, x: MediaFile)
    ensures
        insert_by_name(t, x).len() == t.len() + 1,
        insert_by_name(t, x).to_multiset() == t.to_multiset().insert(x),
        forall|k: int|
            0 <= k < insert_by_name(t, x).len() ==> #[trigger] insert_by_name(t, x)[k] == x || t.contains(
                insert_by_name(t, x)[k],
            ),
    decreases t.len(),
{
    broadcast use vstd::seq_lib::group_to_multiset_ensures;
    let r = insert_by_name(t, x);
    if t.len() == 0 {
        assert(r == seq![x]);
        assert(seq![x] == Seq::<MediaFile>::empty().push(x));
    } else if chars_after(name_key(t[0]), name_key(x)) {
        assert(r == seq![x] + t);
        vstd::seq_lib::lemma_multiset_commutative(seq![x], t);
        assert(seq![x] == Seq::<MediaFile>::empty().push(x));
        assert forall|k: int| 0 <= k < r.len() implies #[trigger] r[k] == x || t.contains(r[k]) by {
            if k > 0 {
                assert(r[k] == t[k - 1]);
            }
        }
    } else {
        let u = t.drop_first();
        lemma_insert_members(u, x);
        let ru = insert_by_name(u, x);
        assert(r == seq![t[0]] + ru);
        vstd::seq_lib::lemma_multiset_commutative(seq![t[0]], ru);
        vstd::seq_lib::lemma_multiset_commutative(seq![t[0]], u);
        assert(t == seq![t[0]] + u);
        assert(seq![t[0]] == Seq::<MediaFile>::empty().push(t[0]));
        assert forall|k: int| 0 <= k < r.len() implies #[trigger] r[k] == x || t.contains(r[k]) by {
            if k == 0 {
                assert(t[0] == r[0]);
            } else {
                assert(r[k] == ru[k - 1]);
                if ru[k - 1] != x {
                    let m = choose|m: int| 0 <= m < u.len() && u[m] == ru[k - 1];
                    assert(t[m + 1] == r[k]);
                }
            }
        }
    }
}

proof fn lemma_insert_sorted(t: Seq<MediaFile>, x: MediaFile)
    requires
        sorted_by_name(t),
    ensures
        sorted_by_name(insert_by_name(t, x)),
    decreases t.len(),
{
    let r = insert_by_name(t, x);
    if t.len() == 0 {
    } else if chars_after(name_key(t[0]), name_key(x)) {
        assert forall|i: int, j: int| 0 <= i < j < r.len() implies !chars_after(
            #[trigger] name_key(r[i]),
            #[trigger] name_key(r[j]),
        ) by {
            if i == 0 {
                lemma_after_asymmetric(name_key(t[0]), name_key(x));
                if j > 1 {
                    assert(r[j] == t[j - 1]);
                    assert(!chars_after(name_key(t[0]), name_key(t[j - 1])));
                    lemma_not_after_transitive(name_key(x), name_key(t[0]), name_key(t[j - 1]));
                }
            } else {
                assert(r[i] == t[i - 1] && r[j] == t[j - 1]);
            }
        }
    } else {
        let u = t.drop_first();
        assert(sorted_by_name(u)) by {
            assert forall|i: int, j: int| 0 <= i < j < u.len() implies !chars_after(
                #[trigger] name_key(u[i]),
                #[trigger] name_key(u[j]),
            ) by {
                assert(u[i] == t[i + 1] && u[j] == t[j + 1]);
            }
        }
        lemma_insert_sorted(u, x);
        lemma_insert_members(u, x);
        let ru = insert_by_name(u, x);
        assert(r == seq![t[0]] + ru);
        assert forall|i: int, j: int| 0 <= i < j < r.len() implies !chars_after(
            #[trigger] name_key(r[i]),
            #[trigger] name_key(r[j]),
        ) by {
            if i == 0 {
                assert(r[j] == ru[j - 1]);
                if ru[j - 1] != x {
                    let m = choose|m: int| 0 <= m < u.len() && u[m] == ru[j - 1];
                    assert(u[m] == t[m + 1]);
                }
            } else {
                assert(r[i] == ru[i - 1] && r[j] == ru[j - 1]);
            }
        }
    }
}

/// Sorting by name puts the items in order of their lower-cased names and
/// keeps exactly the same items.
pub proof fn sort_by_name_orders(s: Seq<MediaFile>)
    ensures
        sorted_by_name(sort_by_name(s)),
        sort_by_name(s).to_multiset() == s.to_multiset(),
    decreases s.len(),
{
    broadcast use vstd::seq_lib::group_to_multiset_ensures;
    if s.len() > 0 {
        sort_by_name_orders(s.drop_last());
        lemma_insert_sorted(sort_by_name(s.drop_last()), s.last());
        lemma_insert_members(sort_by_name(s.drop_last()), s.last());
        assert(s == s.drop_last().push(s.last()));
    }
}

/// A listing that `refresh` builds: after the parent entry, the items are the
/// directories and videos that were read, each once, sorted by lower-cased name.
pub proof fn listing_is_sorted_selection(files: Seq<MediaFile>, dir: Seq<char>, listing: Seq<ListedEntry>)
    requires
        is_listing_of(files, dir, listing),
    ensures
        ({
            let items = if parent_of(dir) is Some { files.drop_first() } else { files };
            &&& sorted_by_name(items)
            &&& items.to_multiset() == shown_files(listing).to_multiset()
        }),
{
    sort_by_name_orders(shown_files(listing));
}

/// Moving the cursor down and then up (or up and then down) brings it back.
pub proof fn cursor_moves_undo(i: int, len: int)
    requires
        0 <= i < len,
    ensures
        up_index(down_index(i, len), len) == i,
        down_index(up_index(i, len), len) == i,
        0 <= down_index(i, len) < len,
        0 <= up_index(i, len) < len,
{
    if i + 1 < len {
        assert((i + 1) % len == i + 1) by {
            vstd::arithmetic::div_mod::lemma_small_mod((i + 1) as nat, len as nat);
        }
    } else {
        assert((i + 1) % len == 0) by {
            vstd::arithmetic::div_mod::lemma_mod_self_0(len);
        }
    }
    if i == 0 {
        assert((len - 1 + 1) % len == 0) by {
            vstd::arithmetic::div_mod::lemma_mod_self_0(len);
        }
    } else {
        assert(i % len == i) by {
            vstd::arithmetic::div_mod::lemma_small_mod(i as nat, len as nat);
        }
    }
}

} // verus!
