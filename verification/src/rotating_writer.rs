use crate::sort::sort_ascending;
use crate::sort::sorted;
use crate::text::dec_str;
use crate::text::push_dec;
use vstd::prelude::*;
use vstd::string::StringExecFns;

verus! {

/// A rotating file sink. It owns one logical file family named
/// `"{base_name}.{index}"` with `index` = 0, 1, 2, ... and writes to one
/// generation at a time; once `current_size` reaches `max_size_bytes`
/// after a write (and rotation is enabled), it moves onto the next index.
/// The open file handle itself lives with the surrounding program; the
/// library keeps and evolves all the bookkeeping: the current index, the
/// byte count of the open generation, and the retained file family, held
/// as generation indices in ascending order.
pub struct RotatingWriter {
    /// Diagnostic label of the sink; equals the base name.
    pub name: String,
    /// Generation indices of the retained files, ascending.
    pub files: Vec<u64>,
    /// Append to an existing generation file rather than truncate it.
    pub append: bool,
    /// Whether rotation was requested at all.
    pub rotate: bool,
    /// Threshold at which a completed write triggers rotation.
    pub max_size_bytes: u64,
    /// Retention cap: evict the oldest generation when more than this many
    /// files remain after a rotation. `None` disables eviction.
    pub max_log_files: Option<u64>,
    /// Bytes written to the open generation since it was opened or rotated
    /// into.
    pub current_size: u64,
    /// The file family's base name.
    pub base_name: String,
    /// Index of the open generation file.
    pub current_file_index: u32,
}

/// The name of one generation file: `"{base}.{idx}"`, the index in decimal
/// with no padding.
pub open spec fn log_file_name_spec(base: Seq<char>, idx: nat) -> Seq<char> {
    base + seq!['.'] + dec_str(idx)
}

/// The index construction resumes on, given how many consecutively
/// numbered generation files already exist: the highest existing index, or
/// 0 when none exists. A new index is never created at startup.
pub open spec fn spec_resume_index(existing_prefix_len: u32) -> u32 {
    if existing_prefix_len > 0 {
        (existing_prefix_len - 1) as u32
    } else {
        0
    }
}

/// The sink's state once a completed write of `n` bytes has been counted:
/// only the open generation's byte count changes, never the index and
/// never the retained family.
pub open spec fn after_write(s: RotatingWriter, n: u64) -> RotatingWriter {
    RotatingWriter { current_size: (s.current_size + n) as u64, ..s }
}

/// Rotation is due exactly when it was requested and the open generation
/// has reached the threshold.
pub open spec fn rotation_due(s: RotatingWriter) -> bool {
    s.rotate && s.current_size >= s.max_size_bytes
}

/// The sink's state once a rotation has begun: the byte count starts over
/// at 0 and the index moves up by exactly one.
pub open spec fn after_rotation_begun(s: RotatingWriter) -> RotatingWriter {
    RotatingWriter {
        current_size: 0u64,
        current_file_index: (s.current_file_index + 1) as u32,
        ..s
    }
}

impl RotatingWriter {
    /// Builds the sink's starting state from what the surrounding program
    /// observed on disk: `existing_prefix_len` consecutively numbered
    /// generation files exist (probing upward from 0), the opened file
    /// already holds `initial_size` bytes (0 after a truncation), and, when
    /// rotation is enabled, `family` lists the generation indices found on
    /// disk, in any order.
    pub fn new(
        base_name: &str,
        append: bool,
        rotate: bool,
        max_size_bytes: u64,
        max_log_files: Option<u64>,
        existing_prefix_len: u32,
        initial_size: u64,
        family: Vec<u64>,
    ) -> (w: Self)
        ensures
            w.name@ == base_name@,
            w.base_name@ == base_name@,
            w.append == append,
            w.rotate == rotate,
            w.max_size_bytes == max_size_bytes,
            w.max_log_files == max_log_files,
            w.current_file_index == spec_resume_index(existing_prefix_len),
            w.current_size == initial_size,
            sorted(w.files@),
            rotate ==> w.files@.to_multiset() == family@.to_multiset() && w.files@.len()
                == family@.len(),
            !rotate ==> w.files@ == Seq::<u64>::empty(),
    {
        let current_file_index = Self::get_current_index(existing_prefix_len);
        let files: Vec<u64> = if rotate {
            Self::fill_files(family)
        } else {
            Vec::new()
        };
        proof {
            if !rotate {
                assert(files@ =~= Seq::<u64>::empty());
            }
        }
        RotatingWriter {
            name: base_name.to_owned(),
            files,
            append,
            rotate,
            max_size_bytes,
            max_log_files,
            current_size: initial_size,
            base_name: base_name.to_owned(),
            current_file_index,
        }
    }

    /// Sorts the enumerated generation indices of the file family into the
    /// ascending order the retained list keeps.
    pub fn fill_files(family: Vec<u64>) -> (r: Vec<u64>)
        ensures
            sorted(r@),
            r@.to_multiset() == family@.to_multiset(),
            r@.len() == family@.len(),
    {
        sort_ascending(family)
    }

    /// The index to resume writing on, from the number of consecutively
    /// numbered generation files that already exist.
    pub fn get_current_index(existing_prefix_len: u32) -> (r: u32)
        ensures
            r == spec_resume_index(existing_prefix_len),
    {
        if existing_prefix_len > 0 {
            existing_prefix_len - 1
        } else {
            0
        }
    }

    /// The file name of one generation: `"{base_name}.{index}"`.
    pub fn get_log_file_name(base_name: &str, index: u64) -> (r: String)
        ensures
            r@ == log_file_name_spec(base_name@, index as nat),
    {
        let mut r = base_name.to_owned();
        r.append(".");
        proof {
            reveal_strlit(".");
            assert("."@ =~= seq!['.']);
        }
        push_dec(&mut r, index);
        proof {
            assert(r@ =~= log_file_name_spec(base_name@, index as nat));
        }
        r
    }

    /// Counts a completed write of `bytes_written` bytes against the open
    /// generation and reports whether rotation is now due. The whole
    /// buffer lands in the generation that was open when the write began:
    /// the index and the retained family never change here.
    pub fn apply_write(&mut self, bytes_written: usize) -> (due: bool)
        requires
            old(self).current_size + bytes_written <= u64::MAX,
        ensures
            *final(self) == after_write(*old(self), bytes_written as u64),
            due == rotation_due(*final(self)),
    {
        self.current_size = self.current_size + (bytes_written as u64);
        self.rotate && self.current_size >= self.max_size_bytes
    }

    /// Begins a rotation: the byte count starts over, the index moves up
    /// by exactly one, and the name of the generation file to open next is
    /// returned. The retained family is untouched until the surrounding
    /// program has re-enumerated it.
    pub fn begin_rotation(&mut self) -> (new_file: String)
        requires
            old(self).current_file_index < u32::MAX,
        ensures
            *final(self) == after_rotation_begun(*old(self)),
            new_file@ == log_file_name_spec(
                old(self).base_name@,
                (old(self).current_file_index + 1) as nat,
            ),
    {
        self.current_size = 0;
        self.current_file_index = self.current_file_index + 1;
        Self::get_log_file_name(self.base_name.as_str(), self.current_file_index as u64)
    }

    /// Completes a rotation from the re-enumerated file family: the
    /// retained list becomes the family in ascending order, and when a
    /// retention cap is set and exceeded, the single oldest generation
    /// (the lowest index) leaves the list and is returned for deletion.
    pub fn finish_rotation(&mut self, family: Vec<u64>) -> (evicted: Option<u64>)
        ensures
            final(self).name == old(self).name,
            final(self).base_name == old(self).base_name,
            final(self).append == old(self).append,
            final(self).rotate == old(self).rotate,
            final(self).max_size_bytes == old(self).max_size_bytes,
            final(self).max_log_files == old(self).max_log_files,
            final(self).current_size == old(self).current_size,
            final(self).current_file_index == old(self).current_file_index,
            sorted(final(self).files@),
            (evicted is Some) == (match old(self).max_log_files {
                Some(cap) => family@.len() > cap,
                None => false,
            }),
            evicted is None ==> final(self).files@.to_multiset() == family@.to_multiset()
                && final(self).files@.len() == family@.len(),
            evicted matches Some(m) ==> family@.to_multiset().contains(m) && (forall|x: u64|
                family@.to_multiset().contains(x) ==> m <= x) && final(self).files@.to_multiset()
                == family@.to_multiset().remove(m) && final(self).files@.len() + 1
                == family@.len(),
    {
        let ghost fam = family@;
        let sf = sort_ascending(family);
        self.files = sf;
        let over = match self.max_log_files {
            Some(cap) => (self.files.len() as u64) > cap,
            None => false,
        };
        if over {
            let ghost sfv = self.files@;
            let m = self.files.remove(0);
            proof {
                sfv.to_multiset_ensures();
                assert(sfv.contains(m));
                assert forall|x: u64| fam.to_multiset().contains(x) implies m <= x by {
                    assert(sfv.to_multiset().count(x) > 0);
                    assert(sfv.contains(x));
                    let i = choose|i: int| 0 <= i < sfv.len() && sfv[i] == x;
                    assert(sfv[0] <= sfv[i]);
                }
                assert(self.files@.to_multiset() =~= fam.to_multiset().remove(m));
            }
            Some(m)
        } else {
            None
        }
    }
}

/// A single write never splits across two generation files: counting the
/// write changes no index, and a rotation that is due afterwards directs
/// only later writes to the next index.
pub proof fn lemma_write_never_splits(s: RotatingWriter, n: u64)
    requires
        s.current_size + n <= u64::MAX,
        s.current_file_index < u32::MAX,
    ensures
        after_write(s, n).current_file_index == s.current_file_index,
        after_write(s, n).files == s.files,
        after_rotation_begun(after_write(s, n)).current_file_index == s.current_file_index + 1,
{
}

/// Rotation fires exactly when the byte count evaluated after the write
/// has reached the threshold: a sink with `max_size_bytes == N` rotates
/// once it has accumulated at least `N` bytes, never before.
pub proof fn lemma_rotation_threshold(s: RotatingWriter, n: u64)
    requires
        s.current_size + n <= u64::MAX,
    ensures
        rotation_due(after_write(s, n)) <==> s.rotate && s.current_size + n >= s.max_size_bytes,
{
}

/// Two ascending sequences holding the same elements, multiplicities
/// included, are the same sequence — so the sorted retained list a
/// rotation settles on is determined exactly by the family found on disk.
pub proof fn lemma_sorted_multiset_unique(a: Seq<u64>, b: Seq<u64>)
    requires
        sorted(a),
        sorted(b),
        a.to_multiset() == b.to_multiset(),
    ensures
        a == b,
    decreases a.len(),
{
    a.to_multiset_ensures();
    b.to_multiset_ensures();
    if a.len() == 0 {
        assert(a =~= b);
    } else {
        assert(a.to_multiset().contains(b[0]));
        assert(a.contains(b[0]));
        assert(b.to_multiset().contains(a[0]));
        assert(b.contains(a[0]));
        let i = choose|i: int| 0 <= i < a.len() && a[i] == b[0];
        let j = choose|j: int| 0 <= j < b.len() && b[j] == a[0];
        assert(a[0] <= a[i] && b[0] <= b[j]);
        assert(a[0] == b[0]);
        assert(a.drop_first().to_multiset() =~= a.remove(0).to_multiset());
        assert(b.drop_first().to_multiset() =~= b.remove(0).to_multiset());
        lemma_sorted_multiset_unique(a.drop_first(), b.drop_first());
        assert(a.len() == b.len());
        assert forall|k: int| 0 < k < a.len() implies a[k] == b[k] by {
            assert(a.drop_first()[k - 1] == b.drop_first()[k - 1]);
        }
        assert(a =~= b);
    }
}

/// Appending an index larger than every retained one keeps the list
/// ascending.
pub proof fn lemma_append_larger_stays_sorted(r: Seq<u64>, n: u64)
    requires
        sorted(r),
        forall|k: int| 0 <= k < r.len() ==> r[k] < n,
    ensures
        sorted(r.push(n)),
{
}

/// One completed rotation matches the retention rule exactly: when the
/// re-enumeration found the previously retained ascending list plus the
/// newly opened generation (newer than everything retained), and the cap
/// was exceeded, what `finish_rotation` settles on — some ascending list
/// holding the family minus its minimum `m` — can only be the family with
/// its oldest entry dropped.
pub proof fn lemma_rotation_step_matches(r: Seq<u64>, n: u64, files: Seq<u64>, m: u64)
    requires
        sorted(r),
        forall|k: int| 0 <= k < r.len() ==> r[k] < n,
        sorted(files),
        files.to_multiset() == r.push(n).to_multiset().remove(m),
        r.push(n).to_multiset().contains(m),
        forall|x: u64| r.push(n).to_multiset().contains(x) ==> m <= x,
    ensures
        m == r.push(n)[0],
        files == r.push(n).drop_first(),
{
    let fam = r.push(n);
    lemma_append_larger_stays_sorted(r, n);
    fam.to_multiset_ensures();
    assert(fam.contains(fam[0]));
    assert(fam.to_multiset().count(fam[0]) > 0);
    assert(fam.to_multiset().contains(fam[0]));
    assert(m <= fam[0]);
    assert(fam.contains(m));
    let i = choose|i: int| 0 <= i < fam.len() && fam[i] == m;
    assert(fam[0] <= fam[i]);
    assert(m == fam[0]);
    assert(fam.drop_first().to_multiset() =~= fam.remove(0).to_multiset());
    assert(sorted(fam.drop_first()));
    lemma_sorted_multiset_unique(files, fam.drop_first());
}

/// The generation indices `first`, `first + 1`, ..., `count` of them, in
/// ascending order.
pub open spec fn gen_range(first: int, count: nat) -> Seq<u64> {
    Seq::new(count, |j: int| (first + j) as u64)
}

/// The newest `cap` generations of an ascending family: everything but a
/// prefix of older entries.
pub open spec fn keep_newest(s: Seq<u64>, cap: u64) -> Seq<u64> {
    if s.len() > cap {
        s.skip(s.len() - cap)
    } else {
        s
    }
}

/// What one rotation's retention rule does to an ascending family: when
/// the family exceeds the cap, the single oldest entry leaves.
pub open spec fn retention_step(s: Seq<u64>, cap: u64) -> Seq<u64> {
    if s.len() > cap {
        s.drop_first()
    } else {
        s
    }
}

/// The retained family after `m` further rotations under cap `cap`, when
/// the family starts as the ascending list `r`, the open generation is
/// `i`, and each rotation finds on disk exactly what the previous one
/// retained plus the generation it opens.
pub open spec fn retained_after_rotations(r: Seq<u64>, i: u64, m: nat, cap: u64) -> Seq<u64>
    decreases m,
{
    if m == 0 || i == u64::MAX {
        r
    } else {
        retained_after_rotations(
            retention_step(r.push((i + 1) as u64), cap),
            (i + 1) as u64,
            (m - 1) as nat,
            cap,
        )
    }
}

/// Trimming to the newest `cap` entries commutes with appending newer
/// ones: trimming, appending and trimming again is the same as appending
/// and trimming once.
pub proof fn lemma_keep_newest_absorbs(s: Seq<u64>, t: Seq<u64>, cap: u64)
    ensures
        keep_newest(keep_newest(s, cap) + t, cap) == keep_newest(s + t, cap),
{
    if s.len() > cap {
        let d = s.len() - cap;
        assert(keep_newest(s, cap) + t =~= (s + t).skip(d));
        if t.len() > 0 {
            assert(keep_newest((s + t).skip(d), cap) =~= (s + t).skip(d + t.len()));
            assert(keep_newest(s + t, cap) =~= (s + t).skip(d + t.len()));
        } else {
            assert(keep_newest((s + t).skip(d), cap) =~= (s + t).skip(d));
            assert(keep_newest(s + t, cap) =~= (s + t).skip(d));
        }
    } else {
        assert(keep_newest(s, cap) + t =~= s + t);
    }
}

/// Rotating `m` times under cap `cap` retains exactly the newest `cap`
/// entries of everything that ever belonged to the family: the starting
/// entries followed by the `m` generations the rotations opened, each
/// rotation evicting the single oldest entry whenever the cap is
/// exceeded.
pub proof fn lemma_retention_converges(r: Seq<u64>, i: u64, m: nat, cap: u64)
    requires
        r.len() <= cap,
        i + m <= u64::MAX,
    ensures
        retained_after_rotations(r, i, m, cap) == keep_newest(r + gen_range(i as int + 1, m), cap),
    decreases m,
{
    if m == 0 {
        assert(r + gen_range(i as int + 1, 0) =~= r);
    } else {
        let n = (i + 1) as u64;
        let r1 = retention_step(r.push(n), cap);
        assert(r1 == keep_newest(r.push(n), cap));
        lemma_retention_converges(r1, n, (m - 1) as nat, cap);
        lemma_keep_newest_absorbs(r.push(n), gen_range(i as int + 2, (m - 1) as nat), cap);
        assert(r.push(n) + gen_range(i as int + 2, (m - 1) as nat) =~= r + gen_range(
            i as int + 1,
            m,
        ));
    }
}

/// After more rotations than the cap, nothing of the starting family is
/// left: the retained set is exactly the `cap` most recent generations,
/// `i + m - cap + 1` through `i + m`.
pub proof fn lemma_retention_window(r: Seq<u64>, i: u64, m: nat, cap: u64)
    requires
        r.len() <= cap,
        m >= cap,
        i + m <= u64::MAX,
    ensures
        retained_after_rotations(r, i, m, cap) == gen_range(
            i as int + 1 + m - cap,
            cap as nat,
        ),
{
    lemma_retention_converges(r, i, m, cap);
    assert(keep_newest(r + gen_range(i as int + 1, m), cap) =~= gen_range(
        i as int + 1 + m - cap,
        cap as nat,
    ));
}

/// Eviction keeps exactly the most recent generations: when the retained
/// family has no duplicate indices and the evicted index `m` is its
/// minimum, the kept list holds precisely the generations newer than `m`.
pub proof fn lemma_eviction_keeps_newest(family: Seq<u64>, kept: Seq<u64>, m: u64)
    requires
        kept.to_multiset() == family.to_multiset().remove(m),
        family.to_multiset().contains(m),
        forall|x: u64| family.to_multiset().contains(x) ==> m <= x,
        family.no_duplicates(),
    ensures
        forall|x: u64|
            kept.to_multiset().contains(x) <==> family.to_multiset().contains(x) && x > m,
{
    family.lemma_multiset_has_no_duplicates();
    assert forall|x: u64|
        kept.to_multiset().contains(x) <==> family.to_multiset().contains(x) && x > m by {
        assert(kept.to_multiset().count(x) == family.to_multiset().remove(m).count(x));
        if x == m {
            assert(family.to_multiset().count(m) == 1);
        }
    }
}

} // verus!
