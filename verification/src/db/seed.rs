//! Turning downloaded PokeAPI data into CSV tables: unpacking the tarball,
//! choosing which files to keep, and parsing CSV text into rows.
use vstd::prelude::*;
use crate::db::csv_rows::{build_rows, should_skip, should_skip_spec, CsvRow, SeedError, fields_view};
use crate::text::{chars_of, contains, ends_with, has_infix, has_suffix, string_from_chars};

verus! {

// ---------------------------------------------------------------------
// Outside crates: csv, flate2, tar
// ---------------------------------------------------------------------

#[verifier::external_type_specification]
#[verifier::external_body]
pub struct ExCsvError(csv::Error);

#[verifier::external_type_specification]
#[verifier::external_body]
pub struct ExIoError(std::io::Error);

/// What the `csv` crate reads from a byte buffer with a header row and
/// ragged rows allowed: the header fields and the fields of every record,
/// or nothing when the text is not valid CSV.
pub uninterp spec fn csv_table(bytes: Seq<u8>) -> Option<(Seq<Seq<char>>, Seq<Seq<Seq<char>>>)>;

/// What `flate2`'s gzip decoder produces from a buffer, or nothing when the
/// buffer is not valid gzip data.
pub uninterp spec fn gunzipped(bytes: Seq<u8>) -> Option<Seq<u8>>;

/// The entries of a tar archive as `tar` lists them: each entry's path
/// (lossily decoded) and contents, in archive order, or nothing when the
/// archive cannot be read.
pub uninterp spec fn tar_listing(bytes: Seq<u8>) -> Option<Seq<(Seq<char>, Seq<u8>)>>;

/// `csv::ReaderBuilder` with `flexible(true)`, reading the header record and
/// then every record of `bytes`. The contract only ties the result to the
/// name `csv_table`; the CSV grammar itself is left to the crate.
#[verifier::external_body]
fn csv_parse(bytes: &[u8]) -> (r: Result<(Vec<String>, Vec<Vec<String>>), csv::Error>)
    ensures
        match r {
            Ok((h, recs)) => csv_table(bytes@) == Some((h.deep_view(), recs.deep_view())),
            Err(_) => csv_table(bytes@) is None,
        },
{
    let mut reader = csv::ReaderBuilder::new().flexible(true).from_reader(bytes);
    let headers: Vec<String> = reader.headers()?.iter().map(|s| s.to_string()).collect();
    let mut records: Vec<Vec<String>> = Vec::new();
    for rec in reader.records() {
        records.push(rec?.iter().map(|s| s.to_string()).collect());
    }
    Ok((headers, records))
}

/// `flate2::read::GzDecoder` read to the end.
#[verifier::external_body]
fn gunzip(bytes: &[u8]) -> (r: Result<Vec<u8>, std::io::Error>)
    ensures
        match r {
            Ok(out) => gunzipped(bytes@) == Some(out@),
            Err(_) => gunzipped(bytes@) is None,
        },
{
    let mut out = Vec::new();
    std::io::Read::read_to_end(&mut flate2::read::GzDecoder::new(bytes), &mut out)?;
    Ok(out)
}

/// `tar::Archive::entries`, with each entry's path (`to_string_lossy`) and
/// contents read to the end.
#[verifier::external_body]
fn untar(bytes: &[u8]) -> (r: Result<Vec<(String, Vec<u8>)>, std::io::Error>)
    ensures
        match r {
            Ok(es) => tar_listing(bytes@) == Some(es@.map_values(|e: (String, Vec<u8>)| (e.0@, e.1@))),
            Err(_) => tar_listing(bytes@) is None,
        },
{
    let mut archive = tar::Archive::new(bytes);
    let mut out = Vec::new();
    for entry in archive.entries()? {
        let mut entry = entry?;
        let path = entry.path()?.to_string_lossy().to_string();
        let mut contents = Vec::new();
        std::io::Read::read_to_end(&mut entry, &mut contents)?;
        out.push((path, contents));
    }
    Ok(out)
}

// ---------------------------------------------------------------------
// CSV text to rows
// ---------------------------------------------------------------------

/// Parses CSV text (header row first, ragged rows allowed) into rows.
pub fn read_csv(bytes: &[u8]) -> (r: Result<Vec<CsvRow>, SeedError>)
    ensures
        r is Ok <==> csv_table(bytes@) is Some,
        r matches Err(e) ==> e == SeedError::MalformedCsv,
        r matches Ok(rows) ==> {
            let (h, recs) = csv_table(bytes@)->Some_0;
            &&& rows@.len() == recs.len()
            &&& forall|k: int| 0 <= k < rows@.len() ==> {
                let n = if recs[k].len() <= h.len() { recs[k].len() } else { h.len() };
                &&& fields_view((#[trigger] rows@[k]).fields@).len() == n
                &&& forall|i: int| 0 <= i < n ==> fields_view(rows@[k].fields@)[i] == (h[i], recs[k][i])
            }
        },
{
    match csv_parse(bytes) {
        Ok((headers, records)) => {
            let rows = build_rows(headers.as_slice(), records.as_slice());
            proof {
                let (h, recs) = csv_table(bytes@)->Some_0;
                assert(h == headers.deep_view());
                assert(recs == records.deep_view());
                assert forall|k: int| 0 <= k < rows@.len() implies {
                    let n = if recs[k].len() <= h.len() { recs[k].len() } else { h.len() };
                    &&& fields_view((#[trigger] rows@[k]).fields@).len() == n
                    &&& forall|i: int| 0 <= i < n ==> fields_view(rows@[k].fields@)[i] == (h[i], recs[k][i])
                } by {
                    assert(recs[k] == records@[k].deep_view());
                    assert(recs[k].len() == records@[k]@.len());
                    assert forall|i: int| 0 <= i < fields_view(rows@[k].fields@).len() implies
                        fields_view(rows@[k].fields@)[i] == (h[i], recs[k][i]) by {
                        assert(h[i] == headers@[i]@);
                        assert(recs[k][i] == records@[k]@[i]@);
                    }
                }
            }
            Ok(rows)
        },
        Err(_) => Err(SeedError::MalformedCsv),
    }
}

// ---------------------------------------------------------------------
// Choosing the CSV files of the PokeAPI tarball
// ---------------------------------------------------------------------

/// Position of the last `c` in `s`.
pub open spec fn last_index(s: Seq<char>, c: char) -> Option<int> {
    if exists|i: int| 0 <= i < s.len() && s[i] == c {
        Some(choose|i: int| 0 <= i < s.len() && s[i] == c && forall|j: int| i < j < s.len() ==> s[j] != c)
    } else {
        None
    }
}

/// The last component of a `/`-separated path whose last character is not
/// a separator.
pub open spec fn file_name_spec(path: Seq<char>) -> Seq<char> {
    match last_index(path, '/') {
        Some(k) => path.subrange(k + 1, path.len() as int),
        None => path,
    }
}

/// The last component of a path.
pub fn file_name(path: &str) -> (r: String)
    ensures
        r@ == file_name_spec(path@),
{
    let cs = chars_of(path);
    let mut i: usize = cs.len();
    while i > 0
        invariant
            cs@ == path@,
            i <= cs@.len(),
            forall|j: int| i <= j < cs@.len() ==> path@[j] != '/',
        decreases i,
    {
        if cs[i - 1] == '/' {
            let r = string_from_chars(&cs.as_slice()[i..cs.len()]);
            proof {
                let k = last_index(path@, '/')->Some_0;
                assert(path@[i - 1] == '/');
                assert(k == i - 1) by {
                    if k < i - 1 {
                    } else if k > i - 1 {
                    }
                }
                assert(r@ =~= path@.subrange(k + 1, path@.len() as int));
            }
            return r;
        }
        i = i - 1;
    }
    let r = string_from_chars(cs.as_slice());
    r
}

/// A tarball entry is loaded when its path lies under `data/v2/csv/`, ends
/// in `.csv`, and its file name is not one of the skipped tables.
pub open spec fn keep_entry(path: Seq<char>) -> bool {
    has_infix(path, "data/v2/csv/"@) && has_suffix(path, ".csv"@) && !should_skip_spec(file_name_spec(path))
}

/// The loaded entries among `paths`, as `(index, file name)` in order.
pub open spec fn selected(paths: Seq<Seq<char>>) -> Seq<(int, Seq<char>)>
    decreases paths.len(),
{
    if paths.len() == 0 {
        seq![]
    } else {
        let prev = selected(paths.drop_last());
        if keep_entry(paths.last()) {
            prev.push(((paths.len() - 1) as int, file_name_spec(paths.last())))
        } else {
            prev
        }
    }
}

/// The loaded entries of an archive listing, as `(file name, contents)` in
/// archive order.
pub open spec fn loaded_files(entries: Seq<(Seq<char>, Seq<u8>)>) -> Seq<(Seq<char>, Seq<u8>)>
    decreases entries.len(),
{
    if entries.len() == 0 {
        seq![]
    } else {
        let prev = loaded_files(entries.drop_last());
        if keep_entry(entries.last().0) {
            prev.push((file_name_spec(entries.last().0), entries.last().1))
        } else {
            prev
        }
    }
}

proof fn lemma_selected_below(paths: Seq<Seq<char>>)
    ensures
        forall|k: int| 0 <= k < selected(paths).len() ==> 0 <= (#[trigger] selected(paths)[k]).0 < paths.len(),
    decreases paths.len(),
{
    if paths.len() > 0 {
        let d = paths.drop_last();
        lemma_selected_below(d);
        let sd = selected(d);
        assert forall|k: int| 0 <= k < selected(paths).len() implies 0 <= (#[trigger] selected(paths)[k]).0 < paths.len() by {
            if k < sd.len() {
                assert(selected(paths)[k] == sd[k]);
            }
        }
    }
}

/// The loaded files are the selected entries with their contents.
proof fn lemma_loaded_files(entries: Seq<(Seq<char>, Seq<u8>)>)
    ensures
        loaded_files(entries) == selected(entries.map_values(|e: (Seq<char>, Seq<u8>)| e.0)).map_values(
            |p: (int, Seq<char>)| (p.1, entries[p.0].1),
        ),
    decreases entries.len(),
{
    let ps = entries.map_values(|e: (Seq<char>, Seq<u8>)| e.0);
    if entries.len() > 0 {
        let d = entries.drop_last();
        lemma_loaded_files(d);
        let pd = d.map_values(|e: (Seq<char>, Seq<u8>)| e.0);
        assert(ps.drop_last() =~= pd);
        lemma_selected_below(pd);
        let sd = selected(pd);
        assert(sd.map_values(|p: (int, Seq<char>)| (p.1, d[p.0].1)) =~= sd.map_values(
            |p: (int, Seq<char>)| (p.1, entries[p.0].1),
        )) by {
            assert forall|k: int| 0 <= k < sd.len() implies d[(#[trigger] sd[k]).0] == entries[sd[k].0] by {}
        }
        assert(ps.last() == entries.last().0);
        if keep_entry(entries.last().0) {
            assert(selected(ps) == sd.push(((ps.len() - 1) as int, file_name_spec(ps.last()))));
            assert(selected(ps).map_values(|p: (int, Seq<char>)| (p.1, entries[p.0].1)) =~= sd.map_values(
                |p: (int, Seq<char>)| (p.1, entries[p.0].1),
            ).push((file_name_spec(entries.last().0), entries.last().1)));
        } else {
            assert(selected(ps) == sd);
        }
    } else {
        assert(selected(ps) =~= seq![]);
        assert(loaded_files(entries) =~= seq![]);
    }
}

/// The entries of the tarball to write out, as `(entry index, file name)`
/// in archive order.
pub fn select_csv_entries(paths: &[String]) -> (r: Vec<(usize, String)>)
    ensures
        forall|k: int| 0 <= k < r@.len() ==> {
            let (i, f) = #[trigger] r@[k];
            &&& 0 <= i < paths@.len()
            &&& keep_entry(paths@[i as int]@)
            &&& f@ == file_name_spec(paths@[i as int]@)
        },
        forall|k: int, l: int| 0 <= k < l < r@.len() ==> (#[trigger] r@[k]).0 < (#[trigger] r@[l]).0,
        forall|i: int| 0 <= i < paths@.len() && keep_entry(#[trigger] paths@[i]@) ==>
            exists|k: int| 0 <= k < r@.len() && r@[k].0 == i,
        r@.map_values(|p: (usize, String)| (p.0 as int, p.1@)) == selected(paths@.map_values(|s: String| s@)),
{
    let ghost pv = paths@.map_values(|s: String| s@);
    let mut out: Vec<(usize, String)> = Vec::new();
    let mut i: usize = 0;
    while i < paths.len()
        invariant
            i <= paths@.len(),
            forall|k: int| 0 <= k < out@.len() ==> {
                let (j, f) = #[trigger] out@[k];
                &&& 0 <= j < i
                &&& keep_entry(paths@[j as int]@)
                &&& f@ == file_name_spec(paths@[j as int]@)
            },
            forall|k: int, l: int| 0 <= k < l < out@.len() ==> (#[trigger] out@[k]).0 < (#[trigger] out@[l]).0,
            forall|j: int| 0 <= j < i && keep_entry(#[trigger] paths@[j]@) ==>
                exists|k: int| 0 <= k < out@.len() && out@[k].0 == j,
            pv == paths@.map_values(|s: String| s@),
            out@.map_values(|p: (usize, String)| (p.0 as int, p.1@)) == selected(pv.take(i as int)),
        decreases paths.len() - i,
    {
        proof {
            assert(pv.take(i as int + 1).drop_last() =~= pv.take(i as int));
            assert(pv.take(i as int + 1).last() == paths@[i as int]@);
        }
        let p = paths[i].as_str();
        if contains(p, "data/v2/csv/") && ends_with(p, ".csv") {
            let f = file_name(p);
            if !should_skip(f.as_str()) {
                let ghost before = out@;
                out.push((i, f));
                proof {
                    assert(out@.map_values(|p: (usize, String)| (p.0 as int, p.1@)) =~= before.map_values(
                        |p: (usize, String)| (p.0 as int, p.1@),
                    ).push((i as int, file_name_spec(paths@[i as int]@))));
                    assert(out@[out@.len() - 1].0 == i);
                    assert forall|j: int| 0 <= j <= i && keep_entry(#[trigger] paths@[j]@) implies
                        exists|k: int| 0 <= k < out@.len() && out@[k].0 == j by {
                        if j < i {
                            let k = choose|k: int| 0 <= k < before.len() && before[k].0 == j;
                            assert(out@[k] == before[k]);
                        } else {
                            assert(out@[out@.len() - 1].0 == j);
                        }
                    }
                }
            }
        }
        i = i + 1;
    }
    assert(pv.take(paths@.len() as int) =~= pv);
    out
}

/// A file of the result comes from a loaded entry of the archive.
pub open spec fn from_loaded_entry(entries: Seq<(Seq<char>, Seq<u8>)>, name: Seq<char>, contents: Seq<u8>) -> bool {
    exists|i: int| 0 <= i < entries.len() && keep_entry(#[trigger] entries[i].0)
        && name == file_name_spec(entries[i].0) && contents == entries[i].1
}

/// An entry of the archive is among the files of the result.
pub open spec fn written(files: Seq<(String, Vec<u8>)>, name: Seq<char>, contents: Seq<u8>) -> bool {
    exists|k: int| 0 <= k < files.len() && (#[trigger] files[k]).0@ == name && files[k].1@ == contents
}

/// Unpacks the PokeAPI tarball: the CSV files it holds that are loaded, as
/// `(file name, contents)` in archive order.
pub fn extract_csv_files(tarball: &[u8]) -> (r: Result<Vec<(String, Vec<u8>)>, SeedError>)
    ensures
        r is Ok <==> gunzipped(tarball@) is Some && tar_listing(gunzipped(tarball@)->Some_0) is Some,
        r matches Err(e) ==> e == SeedError::MalformedArchive,
        r matches Ok(files) ==> {
            let entries = tar_listing(gunzipped(tarball@)->Some_0)->Some_0;
            &&& forall|k: int| 0 <= k < files@.len() ==>
                from_loaded_entry(entries, (#[trigger] files@[k]).0@, files@[k].1@)
            &&& forall|i: int| 0 <= i < entries.len() && keep_entry(#[trigger] entries[i].0) ==>
                written(files@, file_name_spec(entries[i].0), entries[i].1)
            &&& files@.map_values(|f: (String, Vec<u8>)| (f.0@, f.1@)) == loaded_files(entries)
        },
{
    let tar_bytes = match gunzip(tarball) {
        Ok(b) => b,
        Err(_) => return Err(SeedError::MalformedArchive),
    };
    let entries = match untar(tar_bytes.as_slice()) {
        Ok(e) => e,
        Err(_) => return Err(SeedError::MalformedArchive),
    };
    let ghost listing = entries@.map_values(|e: (String, Vec<u8>)| (e.0@, e.1@));
    let mut paths: Vec<String> = Vec::new();
    let mut i: usize = 0;
    while i < entries.len()
        invariant
            i <= entries@.len(),
            paths@.len() == i,
            forall|j: int| 0 <= j < i ==> (#[trigger] paths@[j])@ == entries@[j].0@,
        decreases entries.len() - i,
    {
        paths.push(entries[i].0.clone());
        i = i + 1;
    }
    let chosen = select_csv_entries(paths.as_slice());
    let mut files: Vec<(String, Vec<u8>)> = Vec::new();
    let mut k: usize = 0;
    while k < chosen.len()
        invariant
            k <= chosen@.len(),
            files@.len() == k,
            paths@.len() == entries@.len(),
            forall|j: int| 0 <= j < paths@.len() ==> (#[trigger] paths@[j])@ == entries@[j].0@,
            forall|m: int| 0 <= m < chosen@.len() ==> {
                let (j, f) = #[trigger] chosen@[m];
                &&& 0 <= j < paths@.len()
                &&& keep_entry(paths@[j as int]@)
                &&& f@ == file_name_spec(paths@[j as int]@)
            },
            forall|m: int| 0 <= m < k ==> (#[trigger] files@[m]).0@ == chosen@[m].1@
                && files@[m].1@ == entries@[chosen@[m].0 as int].1@,
        decreases chosen.len() - k,
    {
        let (j, f) = (chosen[k].0, chosen[k].1.clone());
        let contents = copy_bytes(entries[j].1.as_slice());
        files.push((f, contents));
        k = k + 1;
    }
    proof {
        let es = tar_listing(gunzipped(tarball@)->Some_0)->Some_0;
        assert(es == listing);
        let pv = paths@.map_values(|s: String| s@);
        assert(pv =~= es.map_values(|e: (Seq<char>, Seq<u8>)| e.0));
        lemma_loaded_files(es);
        let sel = chosen@.map_values(|p: (usize, String)| (p.0 as int, p.1@));
        let fv = files@.map_values(|f: (String, Vec<u8>)| (f.0@, f.1@));
        let want = sel.map_values(|p: (int, Seq<char>)| (p.1, es[p.0].1));
        assert(fv =~= want) by {
            assert forall|m: int| 0 <= m < fv.len() implies #[trigger] fv[m] == want[m] by {
                let j = chosen@[m].0 as int;
                assert(es[j] == (entries@[j].0@, entries@[j].1@));
            }
        }
        assert forall|m: int| 0 <= m < files@.len() implies
            from_loaded_entry(es, (#[trigger] files@[m]).0@, files@[m].1@) by {
            let j = chosen@[m].0 as int;
            assert(es[j] == (entries@[j].0@, entries@[j].1@));
            assert(es[j].0 == paths@[j]@);
            assert(keep_entry(es[j].0));
        }
        assert forall|i: int| 0 <= i < es.len() && keep_entry(#[trigger] es[i].0) implies
            written(files@, file_name_spec(es[i].0), es[i].1) by {
            assert(es[i] == (entries@[i].0@, entries@[i].1@));
            assert(es[i].0 == paths@[i]@);
            assert(keep_entry(paths@[i]@));
            let m = choose|m: int| 0 <= m < chosen@.len() && chosen@[m].0 == i;
            assert(files@[m].0@ == chosen@[m].1@);
        }
    }
    Ok(files)
}

/// A copy of a byte slice.
fn copy_bytes(b: &[u8]) -> (r: Vec<u8>)
    ensures
        r@ == b@,
{
    let mut r: Vec<u8> = Vec::new();
    let mut i: usize = 0;
    while i < b.len()
        invariant
            i <= b@.len(),
            r@ == b@.subrange(0, i as int),
        decreases b.len() - i,
    {
        r.push(b[i]);
        i = i + 1;
        assert(r@ =~= b@.subrange(0, i as int));
    }
    assert(r@ =~= b@);
    r
}

} // verus!
