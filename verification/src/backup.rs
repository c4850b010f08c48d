use vstd::prelude::*;

verus! {

/// One file of the configuration directory, captured before the directory is
/// deleted and recreated: its name and its full text content. Once captured
/// an entry is never changed; restoring writes the content back verbatim.
pub struct BackupEntry {
    pub file_name: String,
    pub contents: String,
}

/// The directory contents after every entry has been written into `dir`, in
/// snapshot order: a pure overwrite of each name with its captured content,
/// never a merge.
pub open spec fn restored_files(
    entries: Seq<BackupEntry>,
    dir: Map<Seq<char>, Seq<char>>,
) -> Map<Seq<char>, Seq<char>>
    decreases entries.len(),
{
    if entries.len() == 0 {
        dir
    } else {
        restored_files(entries.skip(1), dir.insert(entries[0].file_name@, entries[0].contents@))
    }
}

/// The entries are exactly a snapshot of `files`: every entry names a file
/// and carries its content, no name twice, and no file is missed.
pub open spec fn snapshot_of(entries: Seq<BackupEntry>, files: Map<Seq<char>, Seq<char>>) -> bool {
    &&& forall|i: int, j: int|
        0 <= i < j < entries.len() ==> entries[i].file_name@ != entries[j].file_name@
    &&& forall|i: int|
        0 <= i < entries.len() ==> files.contains_key(#[trigger] entries[i].file_name@)
            && files[entries[i].file_name@] == entries[i].contents@
    &&& forall|k: Seq<char>|
        files.contains_key(k) ==> exists|i: int|
            0 <= i < entries.len() && #[trigger] entries[i].file_name@ == k
}

proof fn lemma_restore_into(
    entries: Seq<BackupEntry>,
    files: Map<Seq<char>, Seq<char>>,
    acc: Map<Seq<char>, Seq<char>>,
)
    requires
        forall|i: int, j: int|
            0 <= i < j < entries.len() ==> entries[i].file_name@ != entries[j].file_name@,
        forall|i: int|
            0 <= i < entries.len() ==> files.contains_key(#[trigger] entries[i].file_name@)
                && files[entries[i].file_name@] == entries[i].contents@,
        forall|k: Seq<char>| #![trigger acc.contains_key(k)]
            acc.contains_key(k) ==> files.contains_key(k) && acc[k] == files[k],
        forall|k: Seq<char>| #![trigger files.contains_key(k)]
            files.contains_key(k) ==> acc.contains_key(k) || exists|i: int|
                0 <= i < entries.len() && #[trigger] entries[i].file_name@ == k,
    ensures
        restored_files(entries, acc) =~= files,
    decreases entries.len(),
{
    if entries.len() == 0 {
        assert(restored_files(entries, acc) == acc);
        assert forall|k: Seq<char>| #![trigger acc.dom().contains(k)]
            acc.dom().contains(k) implies files.dom().contains(k) && acc[k] == files[k] by {
            assert(acc.contains_key(k));
        }
        assert forall|k: Seq<char>| #![trigger files.dom().contains(k)]
            files.dom().contains(k) implies acc.dom().contains(k) by {
            assert(files.contains_key(k));
            assert(!(exists|i: int|
                0 <= i < entries.len() && #[trigger] entries[i].file_name@ == k));
        }
        assert(acc =~= files);
    } else {
        let e = entries[0];
        let rest = entries.skip(1);
        let acc2 = acc.insert(e.file_name@, e.contents@);
        assert(forall|i: int| 0 <= i < rest.len() ==> rest[i] == entries[i + 1]);
        assert(files.contains_key(e.file_name@) && files[e.file_name@] == e.contents@);
        assert forall|i: int, j: int|
            0 <= i < j < rest.len() implies rest[i].file_name@ != rest[j].file_name@ by {
            assert(entries[i + 1].file_name@ != entries[j + 1].file_name@);
        }
        assert forall|i: int|
            0 <= i < rest.len() implies files.contains_key(#[trigger] rest[i].file_name@)
                && files[rest[i].file_name@] == rest[i].contents@ by {
            assert(files.contains_key(entries[i + 1].file_name@) && files[entries[i
                + 1].file_name@] == entries[i + 1].contents@);
        }
        assert forall|k: Seq<char>| #![trigger acc2.contains_key(k)]
            acc2.contains_key(k) implies files.contains_key(k) && acc2[k] == files[k] by {
            if k == e.file_name@ {
                assert(acc2[k] == e.contents@);
                assert(files[k] == e.contents@);
            } else {
                assert(acc.contains_key(k));
                assert(acc2[k] == acc[k]);
            }
        }
        assert forall|k: Seq<char>| #![trigger files.contains_key(k)]
            files.contains_key(k) implies acc2.contains_key(k) || exists|i: int|
                0 <= i < rest.len() && #[trigger] rest[i].file_name@ == k by {
            if files.contains_key(k) && !acc2.contains_key(k) {
                let i = choose|i: int| 0 <= i < entries.len() && #[trigger] entries[i].file_name@
                    == k;
                assert(i != 0);
                assert(rest[i - 1].file_name@ == k);
            }
        }
        lemma_restore_into(rest, files, acc2);
    }
}

/// Law (round trip): after the configuration directory has been deleted and
/// recreated empty, restoring a snapshot of it reproduces exactly the files
/// that were read, each with its captured content.
pub proof fn lemma_snapshot_restore_round_trip(
    entries: Seq<BackupEntry>,
    files: Map<Seq<char>, Seq<char>>,
)
    requires
        snapshot_of(entries, files),
    ensures
        restored_files(entries, Map::<Seq<char>, Seq<char>>::empty()) =~= files,
{
    lemma_restore_into(entries, files, Map::<Seq<char>, Seq<char>>::empty());
}

/// Law: a snapshot of an empty directory holds no entries, and restoring it
/// writes nothing: the directory stays empty.
pub proof fn lemma_empty_snapshot_restores_nothing(entries: Seq<BackupEntry>)
    requires
        snapshot_of(entries, Map::<Seq<char>, Seq<char>>::empty()),
    ensures
        entries.len() == 0,
        restored_files(entries, Map::<Seq<char>, Seq<char>>::empty()) =~= Map::<
            Seq<char>,
            Seq<char>,
        >::empty(),
{
    if entries.len() > 0 {
        assert(Map::<Seq<char>, Seq<char>>::empty().contains_key(entries[0].file_name@));
    }
}

} // verus!
