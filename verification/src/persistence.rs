//! Packages transferred in chunks: where chunks and assembled packages are
//! stored, which chunks a transfer holds and whether an assembled package
//! has the announced checksum.

use vstd::prelude::*;
use crypto::digest::Digest;
use crypto::sha1::Sha1;
use rustc_serialize::base64::FromBase64;
use crate::number::{decimal, decimal_string, lemma_decimal_digits, lemma_parse_decimal, parse_u64, spec_parse_u64};
use crate::package::PackageId;
use crate::sort::{sort_u64, sorted};
use crate::text::{chars_of, str_eq};

verus! {

/// What the base64 decoder of `rustc_serialize` reads from a string, or
/// `None` when it refuses the string.
pub uninterp spec fn base64_decoded(s: Seq<char>) -> Option<Seq<u8>>;

/// The lowercase hexadecimal SHA-1 digest of some bytes, as `rust-crypto`
/// computes it.
pub uninterp spec fn sha1_hex(data: Seq<u8>) -> Seq<char>;

/// Calls `FromBase64::from_base64` of `rustc_serialize` on a string; an error
/// becomes `None`. The decoded bytes are `base64_decoded` of the string.
#[verifier::external_body]
fn from_base64(s: &str) -> (r: Option<Vec<u8>>)
    ensures
        r is Some <==> base64_decoded(s@) is Some,
        r matches Some(v) ==> v@ == base64_decoded(s@)->0,
{
    s.from_base64().ok()
}

/// Feeds some bytes to `Sha1` of `rust-crypto` and returns `result_str()`,
/// which is `sha1_hex` of the bytes: 20 digest bytes, each as two hex digits.
#[verifier::external_body]
fn sha1_result_str(data: &[u8]) -> (r: String)
    ensures
        r@ == sha1_hex(data@),
        r@.len() == 40,
{
    let mut hasher = Sha1::new();
    hasher.input(data);
    hasher.result_str()
}

/// `PathBuf::push` on Unix: an absolute component replaces the path,
/// otherwise it is appended, after a `/` unless the path is empty or already
/// ends with one.
pub open spec fn path_join(base: Seq<char>, comp: Seq<char>) -> Seq<char> {
    if comp.len() > 0 && comp[0] == '/' {
        comp
    } else if base.len() == 0 || base.last() == '/' {
        base + comp
    } else {
        base + "/"@ + comp
    }
}

/// Appends a path component as `PathBuf::push` does on Unix.
pub fn join_path(base: &str, comp: &str) -> (r: String)
    ensures
        r@ == path_join(base@, comp@),
{
    let b = chars_of(base);
    let c = chars_of(comp);
    if c.len() > 0 && c[0] == '/' {
        String::from_str(comp)
    } else if b.len() == 0 || b[b.len() - 1] == '/' {
        String::from_str(base).concat(comp)
    } else {
        String::from_str(base).concat("/").concat(comp)
    }
}

/// A chunked transfer of one package.
#[derive(Debug)]
pub struct Transfer {
    /// The package being transferred.
    pub package: PackageId,
    /// The SHA-1 checksum (lowercase hex) of the assembled package.
    pub checksum: String,
    /// The indices of the chunks stored so far.
    pub transferred_chunks: Vec<u64>,
    /// The directory below which chunks and packages are stored.
    pub prefix_dir: String,
}

/// A chunk to be stored: create `dir`, then write `data` to `path`.
#[derive(Debug)]
pub struct ChunkFile {
    pub dir: String,
    pub path: String,
    pub data: Vec<u8>,
}

/// The file names of a directory listing; `None` for a name that is not
/// valid Unicode.
pub open spec fn names_view(names: Seq<Option<String>>) -> Seq<Option<Seq<char>>> {
    names.map_values(|n: Option<String>| match n {
        Some(s) => Some(s@),
        None => None,
    })
}

/// The chunk indices named by a directory listing, in listing order; names
/// that are no index are skipped.
pub open spec fn listed_indices(names: Seq<Option<Seq<char>>>) -> Seq<u64>
    decreases names.len(),
{
    if names.len() == 0 {
        Seq::empty()
    } else {
        let rest = listed_indices(names.drop_last());
        match names.last() {
            Some(n) => match spec_parse_u64(n) {
                Some(i) => rest.push(i),
                None => rest,
            },
            None => rest,
        }
    }
}

/// The chunk indices named by a directory listing in listing order, or `None`
/// when some name is no index.
pub open spec fn all_listed_indices(names: Seq<Option<Seq<char>>>) -> Option<Seq<u64>>
    decreases names.len(),
{
    if names.len() == 0 {
        Some(Seq::empty())
    } else {
        match all_listed_indices(names.drop_last()) {
            None => None,
            Some(rest) => match names.last() {
                Some(n) => match spec_parse_u64(n) {
                    Some(i) => Some(rest.push(i)),
                    None => None,
                },
                None => None,
            },
        }
    }
}

/// Reads the name of a directory entry as a chunk index.
fn entry_index(name: &Option<String>) -> (r: Option<u64>)
    ensures
        r == match name {
            Some(s) => spec_parse_u64(s@),
            None => None,
        },
{
    match name {
        Some(s) => parse_u64(&chars_of(s.as_str())),
        None => None,
    }
}

/// The chunk indices named by a directory listing, ascending; names that are
/// no index are skipped.
pub fn indices_from_names(names: &Vec<Option<String>>) -> (r: Vec<u64>)
    ensures
        sorted(r@),
        r@.to_multiset() == listed_indices(names_view(names@)).to_multiset(),
{
    let mut found: Vec<u64> = Vec::new();
    let mut i: usize = 0;
    while i < names.len()
        invariant
            i <= names.len(),
            found@ == listed_indices(names_view(names@.take(i as int))),
        decreases names.len() - i,
    {
        let ghost before = names_view(names@.take(i as int));
        proof {
            assert(names_view(names@.take(i + 1)).drop_last() =~= before);
        }
        match entry_index(&names[i]) {
            Some(k) => {
                found.push(k);
            },
            None => {},
        }
        i = i + 1;
    }
    assert(names@.take(names.len() as int) =~= names@);
    sort_u64(&found)
}

/// The chunk indices of a directory listing in ascending order, or `None`
/// when some name is no index.
pub fn assembly_order(names: &Vec<Option<String>>) -> (r: Option<Vec<u64>>)
    ensures
        r is Some <==> all_listed_indices(names_view(names@)) is Some,
        r matches Some(v) ==> sorted(v@) && v@.to_multiset() == all_listed_indices(
            names_view(names@),
        )->0.to_multiset(),
{
    let mut found: Vec<u64> = Vec::new();
    let mut i: usize = 0;
    while i < names.len()
        invariant
            i <= names.len(),
            all_listed_indices(names_view(names@.take(i as int))) == Some(found@),
        decreases names.len() - i,
    {
        let ghost before = names_view(names@.take(i as int));
        proof {
            assert(names_view(names@.take(i + 1)).drop_last() =~= before);
        }
        match entry_index(&names[i]) {
            Some(k) => {
                found.push(k);
            },
            None => {
                proof {
                    lemma_all_listed_prefix(names_view(names@), (i + 1) as int);
                    assert(names_view(names@).take(i + 1) =~= names_view(names@.take(i + 1)));
                }
                return None;
            },
        }
        i = i + 1;
    }
    assert(names@.take(names.len() as int) =~= names@);
    Some(sort_u64(&found))
}

/// The bytes of `parts`, one part after the other.
pub open spec fn concat_all(parts: Seq<Seq<u8>>) -> Seq<u8>
    decreases parts.len(),
{
    if parts.len() == 0 {
        Seq::empty()
    } else {
        concat_all(parts.drop_last()) + parts.last()
    }
}

/// The views of byte vectors.
pub open spec fn bytes_views(parts: Seq<Vec<u8>>) -> Seq<Seq<u8>> {
    parts.map_values(|p: Vec<u8>| p@)
}

/// The package's bytes from its chunks, given in assembly order: the chunks
/// one after the other.
pub fn concat_chunks(parts: &Vec<Vec<u8>>) -> (r: Vec<u8>)
    ensures
        r@ == concat_all(bytes_views(parts@)),
{
    let mut out: Vec<u8> = Vec::new();
    let mut i: usize = 0;
    while i < parts.len()
        invariant
            i <= parts.len(),
            out@ == concat_all(bytes_views(parts@.take(i as int))),
        decreases parts.len() - i,
    {
        let mut part: Vec<u8> = Vec::new();
        let mut j: usize = 0;
        let n: usize = parts[i].len();
        while j < n
            invariant
                i < parts.len(),
                n == parts@[i as int]@.len(),
                j <= n,
                part@ == parts@[i as int]@.take(j as int),
            decreases n - j,
        {
            part.push(parts[i][j]);
            j = j + 1;
            assert(part@ =~= parts@[i as int]@.take(j as int));
        }
        assert(part@ =~= parts@[i as int]@);
        let ghost before = out@;
        out.append(&mut part);
        assert(bytes_views(parts@.take(i + 1)).drop_last() =~= bytes_views(parts@.take(i as int)));
        assert(bytes_views(parts@.take(i + 1)).last() == parts@[i as int]@);
        i = i + 1;
    }
    assert(parts@.take(parts.len() as int) =~= parts@);
    out
}

/// Once a prefix of a listing holds a name that is no index, so does the
/// whole listing.
pub proof fn lemma_all_listed_prefix(names: Seq<Option<Seq<char>>>, k: int)
    requires
        0 <= k <= names.len(),
        all_listed_indices(names.take(k)) is None,
    ensures
        all_listed_indices(names) is None,
    decreases names.len() - k,
{
    if k < names.len() {
        assert(names.take(k + 1).drop_last() =~= names.take(k));
        lemma_all_listed_prefix(names, k + 1);
    } else {
        assert(names.take(k) =~= names);
    }
}

impl Transfer {
    /// A transfer of no package yet, storing below `prefix`.
    pub fn new(prefix: &str) -> (t: Transfer)
        ensures
            t.package.name@ == Seq::<char>::empty(),
            t.package.version@ == Seq::<char>::empty(),
            t.checksum@ == Seq::<char>::empty(),
            t.transferred_chunks@ == Seq::<u64>::empty(),
            t.prefix_dir@ == prefix@,
    {
        Transfer {
            package: PackageId { name: String::new(), version: String::new() },
            checksum: String::new(),
            transferred_chunks: Vec::new(),
            prefix_dir: String::from_str(prefix),
        }
    }

    /// The transfer of `package` as far as it is stored already: the chunks
    /// are those the listing `names` of the chunk directory names, in
    /// ascending order (names that are no index are skipped).
    pub fn from_disk(package: PackageId, checksum: String, prefix_dir: String, names: &Vec<Option<String>>) -> (t:
        Transfer)
        ensures
            t.package == package,
            t.checksum == checksum,
            t.prefix_dir == prefix_dir,
            sorted(t.transferred_chunks@),
            t.transferred_chunks@.to_multiset() == listed_indices(names_view(names@)).to_multiset(),
    {
        let chunks = indices_from_names(names);
        Transfer { package, checksum, transferred_chunks: chunks, prefix_dir }
    }

    /// `<prefix>/downloads/<name>-<version>`.
    pub open spec fn chunk_dir_view(&self) -> Seq<char> {
        path_join(path_join(self.prefix_dir@, "downloads"@), self.package.describe_view())
    }

    /// `<chunk dir>/<index>`.
    pub open spec fn chunk_path_view(&self, index: u64) -> Seq<char> {
        path_join(self.chunk_dir_view(), decimal(index as nat))
    }

    /// `<prefix>/packages`.
    pub open spec fn package_dir_view(&self) -> Seq<char> {
        path_join(self.prefix_dir@, "packages"@)
    }

    /// `<prefix>/packages/<name>-<version>.spkg`.
    pub open spec fn package_path_view(&self) -> Seq<char> {
        path_join(self.package_dir_view(), self.package.describe_view() + ".spkg"@)
    }

    /// The directory holding the chunks of this transfer.
    pub fn chunk_dir(&self) -> (p: String)
        ensures
            p@ == self.chunk_dir_view(),
    {
        let downloads = join_path(self.prefix_dir.as_str(), "downloads");
        let name = self.package.describe();
        join_path(downloads.as_str(), name.as_str())
    }

    /// The file holding chunk `index`.
    pub fn chunk_path(&self, index: u64) -> (p: String)
        ensures
            p@ == self.chunk_path_view(index),
    {
        let dir = self.chunk_dir();
        let file = decimal_string(index);
        join_path(dir.as_str(), file.as_str())
    }

    /// The directory holding assembled packages.
    pub fn package_dir(&self) -> (p: String)
        ensures
            p@ == self.package_dir_view(),
    {
        join_path(self.prefix_dir.as_str(), "packages")
    }

    /// The file the assembled package is written to.
    pub fn package_path(&self) -> (p: String)
        ensures
            p@ == self.package_path_view(),
    {
        let dir = self.package_dir();
        let file = self.package.describe().concat(".spkg");
        join_path(dir.as_str(), file.as_str())
    }

    /// The chunk file that storing chunk `index`, sent base64 encoded as
    /// `msg`, takes; `None` when `msg` is no base64. Once the file is
    /// written, `record_chunk` notes the chunk.
    pub fn write_chunk(&self, msg: &str, index: u64) -> (r: Option<ChunkFile>)
        ensures
            r is Some <==> base64_decoded(msg@) is Some,
            r matches Some(f) ==> f.data@ == base64_decoded(msg@)->0 && f.dir@ == self.chunk_dir_view()
                && f.path@ == self.chunk_path_view(index),
    {
        match from_base64(msg) {
            Some(data) => Some(ChunkFile { dir: self.chunk_dir(), path: self.chunk_path(index), data }),
            None => None,
        }
    }

    /// Notes that chunk `index` is stored.
    pub fn record_chunk(&mut self, index: u64)
        ensures
            final(self).transferred_chunks@ == old(self).transferred_chunks@.push(index),
            final(self).package == old(self).package,
            final(self).checksum == old(self).checksum,
            final(self).prefix_dir == old(self).prefix_dir,
    {
        self.transferred_chunks.push(index);
    }

    /// Whether `data` has the checksum the transfer announced.
    pub fn checksum_matches(&self, data: &[u8]) -> (r: bool)
        ensures
            r == (sha1_hex(data@) == self.checksum@),
            self.checksum@.len() != 40 ==> !r,
    {
        let hash = sha1_result_str(data);
        str_eq(hash.as_str(), self.checksum.as_str())
    }

    /// Whether the package is complete: its chunks could be assembled (into
    /// `assembled`) and it has the announced checksum.
    pub fn assemble_package(&self, assembled: &Option<Vec<u8>>) -> (r: bool)
        ensures
            r == match assembled {
                Some(d) => sha1_hex(d@) == self.checksum@,
                None => false,
            },
            self.checksum@.len() != 40 ==> !r,
    {
        match assembled {
            Some(d) => self.checksum_matches(d.as_slice()),
            None => false,
        }
    }
}

/// Item `i` of `items` is the transfer of update `k`.
pub open spec fn has_key(items: Seq<(String, Transfer)>, k: Seq<char>, i: int) -> bool {
    0 <= i < items.len() && items[i].0@ == k
}

/// No two items are transfers of the same update.
pub open spec fn unique_keys(items: Seq<(String, Transfer)>) -> bool {
    forall|i: int, j: int| 0 <= i < items.len() && 0 <= j < items.len() && i != j ==> items[i].0@ != items[j].0@
}

/// The transfers of `items` by update id.
pub open spec fn items_map(items: Seq<(String, Transfer)>) -> Map<Seq<char>, Transfer> {
    Map::new(
        |k: Seq<char>| exists|i: int| has_key(items, k, i),
        |k: Seq<char>| items[choose|i: int| has_key(items, k, i)].1,
    )
}

/// Two maps with the same keys and the same values at them are equal.
proof fn lemma_map_eq(m1: Map<Seq<char>, Transfer>, m2: Map<Seq<char>, Transfer>)
    requires
        forall|key: Seq<char>|
            #![trigger m1.dom().contains(key)]
            #![trigger m2.dom().contains(key)]
            m1.dom().contains(key) == m2.dom().contains(key) && (m1.dom().contains(key) ==> m1[key]
                == m2[key]),
    ensures
        m1 == m2,
{
    assert(m1 =~= m2);
}

/// The transfers in progress, by update id.
pub struct Transfers {
    items: Vec<(String, Transfer)>,
}

impl Transfers {
    #[verifier::type_invariant]
    spec fn keys_unique(self) -> bool {
        unique_keys(self.items@)
    }

    /// The transfers by update id.
    pub closed spec fn view(&self) -> Map<Seq<char>, Transfer> {
        items_map(self.items@)
    }

    /// No transfers.
    pub fn new() -> (t: Transfers)
        ensures
            t.view() == Map::<Seq<char>, Transfer>::empty(),
    {
        let t = Transfers { items: Vec::new() };
        assert(t.view() =~= Map::<Seq<char>, Transfer>::empty());
        t
    }

    /// Position of the transfer of `id`.
    fn position(&self, id: &str) -> (r: Option<usize>)
        ensures
            match r {
                Some(i) => has_key(self.items@, id@, i as int),
                None => forall|i: int| !has_key(self.items@, id@, i),
            },
    {
        let mut i: usize = 0;
        while i < self.items.len()
            invariant
                i <= self.items.len(),
                forall|j: int| 0 <= j < i ==> !has_key(self.items@, id@, j),
            decreases self.items.len() - i,
        {
            if str_eq(self.items[i].0.as_str(), id) {
                return Some(i);
            }
            i = i + 1;
        }
        None
    }

    /// The lookup of a present key is the item holding it.
    proof fn lemma_lookup(items: Seq<(String, Transfer)>, k: Seq<char>, i: int)
        requires
            unique_keys(items),
            has_key(items, k, i),
        ensures
            items_map(items).contains_key(k),
            items_map(items)[k] == items[i].1,
    {
        let j = choose|j: int| has_key(items, k, j);
        assert(has_key(items, k, j));
        assert(i == j);
    }

    /// Whether update `id` has a transfer in progress.
    pub fn contains(&self, id: &str) -> (r: bool)
        ensures
            r == self.view().contains_key(id@),
    {
        proof {
            use_type_invariant(self);
        }
        match self.position(id) {
            Some(i) => {
                proof {
                    Self::lemma_lookup(self.items@, id@, i as int);
                }
                true
            },
            None => false,
        }
    }

    /// The transfer of update `id`.
    pub fn get(&self, id: &str) -> (r: Option<&Transfer>)
        ensures
            match r {
                Some(t) => self.view().contains_key(id@) && self.view()[id@] == *t,
                None => !self.view().contains_key(id@),
            },
    {
        proof {
            use_type_invariant(self);
        }
        match self.position(id) {
            Some(i) => {
                proof {
                    Self::lemma_lookup(self.items@, id@, i as int);
                }
                Some(&self.items[i].1)
            },
            None => None,
        }
    }

    /// Starts (or restarts) the transfer of update `id`.
    pub fn push(&mut self, id: String, transfer: Transfer)
        ensures
            final(self).view() == old(self).view().insert(id@, transfer),
    {
        proof {
            use_type_invariant(&*self);
        }
        let ghost old_items = self.items@;
        let ghost k = id@;
        let ghost t = transfer;
        match self.position(id.as_str()) {
            Some(i) => {
                let mut items = Vec::new();
                std::mem::swap(&mut items, &mut self.items);
                items.set(i, (id, transfer));
                assert(unique_keys(items@));
                assert forall|key: Seq<char>| #![trigger items_map(items@).dom().contains(key)] items_map(items@).dom().contains(key) == items_map(old_items).insert(k, t).dom().contains(key) && (items_map(items@).dom().contains(key) ==> items_map(items@)[key]
                    == items_map(old_items).insert(k, t)[key]) by {
                    if key == k {
                        Self::lemma_lookup(items@, key, i as int);
                    } else if exists|j: int| has_key(old_items, key, j) {
                        let j = choose|j: int| has_key(old_items, key, j);
                        Self::lemma_lookup(old_items, key, j);
                        assert(has_key(items@, key, j));
                        Self::lemma_lookup(items@, key, j);
                    } else {
                        if exists|j: int| has_key(items@, key, j) {
                            let j = choose|j: int| has_key(items@, key, j);
                            assert(has_key(old_items, key, j));
                        }
                    }
                }
                proof { lemma_map_eq(items_map(items@), items_map(old_items).insert(k, t)); }
                self.items = items;
            },
            None => {
                let mut items = Vec::new();
                std::mem::swap(&mut items, &mut self.items);
                items.push((id, transfer));
                let ghost last = (items@.len() - 1) as int;
                assert(unique_keys(items@)) by {
                    assert forall|a: int, b: int|
                        0 <= a < items@.len() && 0 <= b < items@.len() && a != b implies items@[a].0@
                        != items@[b].0@ by {
                        if a == last {
                            assert(!has_key(old_items, k, b));
                        } else if b == last {
                            assert(!has_key(old_items, k, a));
                        }
                    }
                }
                assert forall|key: Seq<char>| #![trigger items_map(items@).dom().contains(key)] items_map(items@).dom().contains(key) == items_map(old_items).insert(k, t).dom().contains(key) && (items_map(items@).dom().contains(key) ==> items_map(items@)[key]
                    == items_map(old_items).insert(k, t)[key]) by {
                    if key == k {
                        Self::lemma_lookup(items@, key, last);
                    } else if exists|j: int| has_key(old_items, key, j) {
                        let j = choose|j: int| has_key(old_items, key, j);
                        Self::lemma_lookup(old_items, key, j);
                        assert(has_key(items@, key, j));
                        Self::lemma_lookup(items@, key, j);
                    } else {
                        if exists|j: int| has_key(items@, key, j) {
                            let j = choose|j: int| has_key(items@, key, j);
                            assert(j != last);
                            assert(has_key(old_items, key, j));
                        }
                    }
                }
                proof { lemma_map_eq(items_map(items@), items_map(old_items).insert(k, t)); }
                self.items = items;
            },
        }
    }

    /// Ends the transfer of update `id`, handing it back.
    pub fn remove(&mut self, id: &str) -> (r: Option<Transfer>)
        ensures
            final(self).view() == old(self).view().remove(id@),
            match r {
                Some(t) => old(self).view().contains_key(id@) && old(self).view()[id@] == t,
                None => !old(self).view().contains_key(id@),
            },
    {
        proof {
            use_type_invariant(&*self);
        }
        let ghost old_items = self.items@;
        let ghost k = id@;
        match self.position(id) {
            Some(i) => {
                proof {
                    Self::lemma_lookup(old_items, k, i as int);
                }
                let mut items = Vec::new();
                std::mem::swap(&mut items, &mut self.items);
                let (_, t) = items.remove(i);
                assert(unique_keys(items@)) by {
                    assert forall|a: int, b: int|
                        0 <= a < items@.len() && 0 <= b < items@.len() && a != b implies items@[a].0@
                        != items@[b].0@ by {
                        let oa = if a < i { a } else { a + 1 };
                        let ob = if b < i { b } else { b + 1 };
                        assert(items@[a] == old_items[oa]);
                        assert(items@[b] == old_items[ob]);
                    }
                }
                assert forall|key: Seq<char>| #![trigger items_map(items@).dom().contains(key)] items_map(items@).dom().contains(key) == items_map(old_items).remove(k).dom().contains(key) && (items_map(items@).dom().contains(key) ==> items_map(items@)[key]
                    == items_map(old_items).remove(k)[key]) by {
                    if exists|j: int| has_key(items@, key, j) {
                        let j = choose|j: int| has_key(items@, key, j);
                        let oj = if j < i { j } else { j + 1 };
                        assert(items@[j] == old_items[oj]);
                        assert(has_key(old_items, key, oj));
                        assert(key != k);
                        Self::lemma_lookup(old_items, key, oj);
                        Self::lemma_lookup(items@, key, j);
                    } else if key != k && exists|j: int| has_key(old_items, key, j) {
                        let oj = choose|j: int| has_key(old_items, key, j);
                        assert(oj != i);
                        let j = if oj < i { oj } else { oj - 1 };
                        assert(items@[j] == old_items[oj]);
                        assert(has_key(items@, key, j));
                    }
                }
                proof { lemma_map_eq(items_map(items@), items_map(old_items).remove(k)); }
                self.items = items;
                Some(t)
            },
            None => {
                assert(items_map(old_items).remove(k) =~= items_map(old_items));
                None
            },
        }
    }

    /// Ends all transfers.
    pub fn clear(&mut self)
        ensures
            final(self).view() == Map::<Seq<char>, Transfer>::empty(),
    {
        self.items = Vec::new();
        assert(items_map(self.items@) =~= Map::<Seq<char>, Transfer>::empty());
    }
}

/// The listing of a chunk directory holding exactly the chunks `indices`,
/// in that order.
pub open spec fn chunk_names(indices: Seq<u64>) -> Seq<Option<Seq<char>>> {
    indices.map_values(|i: u64| Some(decimal(i as nat)))
}

/// Listing two directory parts one after the other lists their indices one
/// after the other.
pub proof fn lemma_listed_concat(a: Seq<Option<Seq<char>>>, b: Seq<Option<Seq<char>>>)
    ensures
        listed_indices(a + b) == listed_indices(a) + listed_indices(b),
    decreases b.len(),
{
    if b.len() == 0 {
        assert(a + b =~= a);
        assert(listed_indices(a) + listed_indices(b) =~= listed_indices(a));
    } else {
        lemma_listed_concat(a, b.drop_last());
        assert((a + b).drop_last() =~= a + b.drop_last());
        assert((a + b).last() == b.last());
        let x = match b.last() {
            Some(n) => match spec_parse_u64(n) {
                Some(i) => seq![i],
                None => Seq::<u64>::empty(),
            },
            None => Seq::<u64>::empty(),
        };
        assert(listed_indices(b) =~= listed_indices(b.drop_last()) + x);
        assert(listed_indices(a + b) =~= listed_indices(a + b.drop_last()) + x);
        assert(listed_indices(a) + listed_indices(b) =~= listed_indices(a) + listed_indices(b.drop_last()) + x);
    }
}

/// The indices a listing names depend on which names it holds, not on
/// their order.
pub proof fn lemma_listed_permutation(names: Seq<Option<Seq<char>>>, other: Seq<Option<Seq<char>>>)
    requires
        names.to_multiset() == other.to_multiset(),
    ensures
        listed_indices(names).to_multiset() == listed_indices(other).to_multiset(),
    decreases names.len(),
{
    broadcast use vstd::seq_lib::group_to_multiset_ensures, vstd::multiset::group_multiset_axioms;

    if names.len() == 0 {
        assert(other.to_multiset().len() == 0);
        assert(other.len() == 0);
        assert(other =~= names);
    } else {
        let x = names.last();
        assert(names.to_multiset().contains(x)) by {
            assert(names.contains(x) ==> names.to_multiset().contains(x));
            assert(names[names.len() - 1] == x);
        }
        assert(other.to_multiset().contains(x));
        assert(other.contains(x));
        let j = choose|j: int| 0 <= j < other.len() && other[j] == x;
        let rest = other.remove(j);
        assert(names.drop_last().to_multiset() =~= names.to_multiset().remove(x)) by {
            assert(names =~= names.drop_last().push(x));
        }
        assert(rest.to_multiset() =~= other.to_multiset().remove(x));
        lemma_listed_permutation(names.drop_last(), rest);
        let single = seq![x];
        assert(other =~= other.take(j) + single + other.skip(j + 1));
        assert(rest =~= other.take(j) + other.skip(j + 1));
        lemma_listed_concat(other.take(j) + single, other.skip(j + 1));
        lemma_listed_concat(other.take(j), single);
        lemma_listed_concat(other.take(j), other.skip(j + 1));
        assert(single =~= Seq::<Option<Seq<char>>>::empty().push(x));
        assert(listed_indices(Seq::<Option<Seq<char>>>::empty()) =~= Seq::<u64>::empty());
        let fx = listed_indices(single);
        assert(listed_indices(names) =~= listed_indices(names.drop_last()) + fx) by {
            assert(names =~= names.drop_last() + single);
            lemma_listed_concat(names.drop_last(), single);
        }
        let a = listed_indices(other.take(j));
        let b = listed_indices(other.skip(j + 1));
        vstd::seq_lib::lemma_multiset_commutative(listed_indices(names.drop_last()), fx);
        vstd::seq_lib::lemma_multiset_commutative(a + fx, b);
        vstd::seq_lib::lemma_multiset_commutative(a, fx);
        vstd::seq_lib::lemma_multiset_commutative(a, b);
        assert(listed_indices(other) == a + fx + b);
        assert(listed_indices(rest) == a + b);
        assert(listed_indices(other).to_multiset() =~= listed_indices(rest).to_multiset().add(fx.to_multiset()));
    }
}

/// Every chunk file name reads back as its index.
pub proof fn lemma_listed_chunk_names(indices: Seq<u64>)
    ensures
        listed_indices(chunk_names(indices)) == indices,
    decreases indices.len(),
{
    if indices.len() > 0 {
        lemma_listed_chunk_names(indices.drop_last());
        assert(chunk_names(indices).drop_last() =~= chunk_names(indices.drop_last()));
        lemma_parse_decimal(indices.last());
    } else {
        assert(listed_indices(chunk_names(indices)) =~= indices);
    }
}

/// A listing in which every name is a chunk index lists all its names.
proof fn lemma_all_listed(names: Seq<Option<Seq<char>>>)
    requires
        forall|i: int| 0 <= i < names.len() ==> (#[trigger] names[i] matches Some(n) && spec_parse_u64(n) is Some),
    ensures
        all_listed_indices(names) == Some(listed_indices(names)),
    decreases names.len(),
{
    if names.len() > 0 {
        lemma_all_listed(names.drop_last());
        assert(names.last() == names[names.len() - 1]);
    }
}

/// A relative component pushed onto the same path can be read back.
proof fn lemma_path_join_relative(base: Seq<char>, a: Seq<char>, b: Seq<char>)
    requires
        a.len() > 0 && a[0] != '/',
        b.len() > 0 && b[0] != '/',
        path_join(base, a) == path_join(base, b),
    ensures
        a == b,
{
    reveal_strlit("/");
    if base.len() == 0 || base.last() == '/' {
        assert(a =~= path_join(base, a).skip(base.len() as int));
        assert(b =~= path_join(base, b).skip(base.len() as int));
    } else {
        assert(a =~= path_join(base, a).skip(base.len() as int + 1));
        assert(b =~= path_join(base, b).skip(base.len() as int + 1));
    }
}

/// A numeral never begins with `/`.
proof fn lemma_decimal_relative(n: u64)
    ensures
        decimal(n as nat).len() > 0,
        decimal(n as nat)[0] != '/',
{
    lemma_decimal_digits(n as nat);
    assert(crate::number::is_digit(decimal(n as nat)[0]));
}

/// Every chunk has a file of its own in the transfer's chunk directory,
/// named so that it reads back as the chunk's index: chunk `i` is stored as
/// the component `name` of the chunk directory, where `name` reads as `i`,
/// and two chunks are never stored in the same file. This is what lets a
/// restart and the assembly find the chunks that were written.
pub proof fn chunk_files_named_by_index(t: Transfer, i: u64, j: u64)
    ensures
        exists|name: Seq<char>|
            #![trigger spec_parse_u64(name)]
            t.chunk_path_view(i) == path_join(t.chunk_dir_view(), name) && spec_parse_u64(name) == Some(i)
                && name.len() > 0 && name[0] != '/',
        t.chunk_path_view(i) == t.chunk_path_view(j) ==> i == j,
{
    lemma_parse_decimal(i);
    lemma_parse_decimal(j);
    lemma_decimal_relative(i);
    lemma_decimal_relative(j);
    let name = decimal(i as nat);
    assert(t.chunk_path_view(i) == path_join(t.chunk_dir_view(), name) && spec_parse_u64(name) == Some(i));
    if t.chunk_path_view(i) == t.chunk_path_view(j) {
        lemma_path_join_relative(t.chunk_dir_view(), decimal(i as nat), decimal(j as nat));
    }
}

/// Assembling after writing chunks: when the chunk directory holds exactly
/// the files of the chunks written, listed in any order, every name is an
/// index, so the chunks can be assembled; the order of assembly is the
/// ascending order of the chunks written, and the package is the data of
/// those chunks one after the other.
pub proof fn assembly_after_writing_chunks(
    written: Seq<u64>,
    names: Seq<Option<Seq<char>>>,
    order: Seq<u64>,
    data: spec_fn(u64) -> Seq<u8>,
)
    requires
        sorted(written),
        names.to_multiset() == chunk_names(written).to_multiset(),
        sorted(order),
        all_listed_indices(names) is Some ==> order.to_multiset() == all_listed_indices(names)->0.to_multiset(),
    ensures
        all_listed_indices(names) is Some,
        order == written,
        concat_all(order.map_values(data)) == concat_all(written.map_values(data)),
{
    broadcast use vstd::seq_lib::group_to_multiset_ensures;

    assert forall|i: int| 0 <= i < names.len() implies (#[trigger] names[i] matches Some(n) && spec_parse_u64(
        n,
    ) is Some) by {
        assert(names.to_multiset().count(names[i]) > 0);
        assert(chunk_names(written).to_multiset().count(names[i]) > 0);
        assert(chunk_names(written).contains(names[i]));
        let j = choose|j: int| 0 <= j < chunk_names(written).len() && chunk_names(written)[j] == names[i];
        lemma_parse_decimal(written[j]);
    }
    lemma_all_listed(names);
    restart_recovers_transferred_chunks(written, names, order);
}

/// Restarting recovers a transfer: when the chunk directory holds exactly the
/// files of the chunks recorded so far, in ascending order and listed in
/// any order, the transfer read back from disk holds the same chunks in the
/// same order.
pub proof fn restart_recovers_transferred_chunks(
    recorded: Seq<u64>,
    names: Seq<Option<Seq<char>>>,
    chunks: Seq<u64>,
)
    requires
        sorted(recorded),
        names.to_multiset() == chunk_names(recorded).to_multiset(),
        sorted(chunks),
        chunks.to_multiset() == listed_indices(names).to_multiset(),
    ensures
        chunks == recorded,
{
    lemma_listed_permutation(names, chunk_names(recorded));
    lemma_listed_chunk_names(recorded);
    let leq = |a: u64, b: u64| a <= b;
    assert(vstd::relations::total_ordering(leq));
    assert(vstd::relations::sorted_by(chunks, leq));
    assert(vstd::relations::sorted_by(recorded, leq));
    vstd::seq_lib::lemma_sorted_unique(chunks, recorded, leq);
}

} // verus!
