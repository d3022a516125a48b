//! The entry index: launchable-application records and how the index is
//! assembled from the outcomes of parsing desktop-entry files.

use vstd::prelude::*;

verus! {

/// One launchable application, as read out of a desktop-entry file.
/// `exec_template` is the raw launch command, still holding `%` field codes.
#[derive(Debug)]
pub struct ApplicationEntry {
    pub name: String,
    pub exec_template: Option<String>,
    pub no_display: bool,
    pub hidden: bool,
}

/// What came out of parsing one desktop-entry file: an application record,
/// a well-formed entry of some other type, or a parse failure.
#[derive(Debug)]
pub enum ParseOutcome {
    Application(ApplicationEntry),
    NotApplication,
    Failed,
}

/// An entry belongs in the index only when it is neither suppressed from
/// menus (`no_display`) nor hidden.
pub open spec fn visible(e: ApplicationEntry) -> bool {
    !e.no_display && !e.hidden
}

/// The index built from a sequence of parse outcomes: successfully parsed
/// application records that are visible, in input order. Failures and
/// non-application entries are silently dropped.
pub open spec fn index_spec(outcomes: Seq<ParseOutcome>) -> Seq<ApplicationEntry>
    decreases outcomes.len(),
{
    if outcomes.len() == 0 {
        Seq::empty()
    } else {
        let rest = index_spec(outcomes.drop_last());
        match outcomes.last() {
            ParseOutcome::Application(e) => if visible(e) {
                rest.push(e)
            } else {
                rest
            },
            ParseOutcome::NotApplication => rest,
            ParseOutcome::Failed => rest,
        }
    }
}

/// An exact copy of an entry.
pub fn clone_entry(e: &ApplicationEntry) -> (r: ApplicationEntry)
    ensures
        r == *e,
{
    ApplicationEntry {
        name: e.name.clone(),
        exec_template: match &e.exec_template {
            Some(s) => Some(s.clone()),
            None => None,
        },
        no_display: e.no_display,
        hidden: e.hidden,
    }
}

/// Keep only the successfully parsed, visible application records, in input
/// order. Parse failures are dropped without report: a best-effort launcher
/// stays usable when single files are malformed.
pub fn build_index(outcomes: &Vec<ParseOutcome>) -> (idx: Vec<ApplicationEntry>)
    ensures
        idx@ == index_spec(outcomes@),
{
    let mut idx: Vec<ApplicationEntry> = Vec::new();
    let mut i: usize = 0;
    while i < outcomes.len()
        invariant
            i <= outcomes@.len(),
            idx@ == index_spec(outcomes@.take(i as int)),
        decreases outcomes@.len() - i,
    {
        match &outcomes[i] {
            ParseOutcome::Application(e) => {
                if !e.no_display && !e.hidden {
                    idx.push(clone_entry(e));
                }
            },
            ParseOutcome::NotApplication => {},
            ParseOutcome::Failed => {},
        }
        proof {
            assert(outcomes@.take(i + 1).drop_last() =~= outcomes@.take(i as int));
            assert(outcomes@.take(i + 1).last() == outcomes@[i as int]);
        }
        i += 1;
    }
    proof {
        assert(outcomes@.take(outcomes@.len() as int) =~= outcomes@);
    }
    idx
}

/// The byte that separates entries of a data-directories list.
pub open spec fn colon() -> u8 {
    58
}

/// The byte that separates path components.
pub open spec fn slash() -> u8 {
    47
}

/// The bytes of the `applications` subdirectory name.
pub open spec fn applications_name() -> Seq<u8> {
    seq![97u8, 112u8, 112u8, 108u8, 105u8, 99u8, 97u8, 116u8, 105u8, 111u8, 110u8, 115u8]
}

/// The bytes of the `.local` directory name.
pub open spec fn dot_local_name() -> Seq<u8> {
    seq![46u8, 108u8, 111u8, 99u8, 97u8, 108u8]
}

/// The bytes of the `share` directory name.
pub open spec fn share_name() -> Seq<u8> {
    seq![115u8, 104u8, 97u8, 114u8, 101u8]
}

/// The bytes of the default system data-directories list,
/// `/usr/local/share/:/usr/share/`.
pub open spec fn default_data_dirs() -> Seq<u8> {
    seq![
        47u8, 117u8, 115u8, 114u8, 47u8, 108u8, 111u8, 99u8, 97u8, 108u8, 47u8, 115u8, 104u8,
        97u8, 114u8, 101u8, 47u8, 58u8, 47u8, 117u8, 115u8, 114u8, 47u8, 115u8, 104u8, 97u8,
        114u8, 101u8, 47u8,
    ]
}

/// Joining one path component onto a path: a separator is inserted unless the
/// path is empty or already ends with one.
pub open spec fn join_component(p: Seq<u8>, name: Seq<u8>) -> Seq<u8> {
    if p.len() == 0 {
        name
    } else if p.last() == slash() {
        p + name
    } else {
        p + seq![slash()] + name
    }
}

/// Splitting a byte string at every colon; `n` colons give `n + 1` pieces,
/// empty pieces included. `cur` carries the piece read so far.
pub open spec fn split_colon_rec(s: Seq<u8>, cur: Seq<u8>) -> Seq<Seq<u8>>
    decreases s.len(),
{
    if s.len() == 0 {
        seq![cur]
    } else if s.first() == colon() {
        seq![cur] + split_colon_rec(s.drop_first(), Seq::empty())
    } else {
        split_colon_rec(s.drop_first(), cur.push(s.first()))
    }
}

/// Splitting a whole byte string at every colon.
pub open spec fn split_colon(s: Seq<u8>) -> Seq<Seq<u8>> {
    split_colon_rec(s, Seq::empty())
}

/// The ordered directory roots that an index build scans: the user data
/// directory first (`XDG_DATA_HOME`, or `$HOME/.local/share` when unset),
/// then every entry of the colon-separated system data-directories list
/// (`XDG_DATA_DIRS`, or its documented default when unset), each root
/// suffixed with an `applications` component. Paths are byte strings here;
/// the host turns them into filesystem paths and skips those that do not
/// exist.
pub open spec fn search_roots_spec(
    xdg_data_home: Option<Seq<u8>>,
    home: Seq<u8>,
    xdg_data_dirs: Option<Seq<u8>>,
) -> Seq<Seq<u8>> {
    let user_data = match xdg_data_home {
        Some(d) => d,
        None => join_component(join_component(home, dot_local_name()), share_name()),
    };
    let dirs = match xdg_data_dirs {
        Some(d) => d,
        None => default_data_dirs(),
    };
    seq![join_component(user_data, applications_name())] + split_colon(dirs).map_values(
        |d: Seq<u8>| join_component(d, applications_name()),
    )
}

fn push_all(out: &mut Vec<u8>, name: &Vec<u8>)
    ensures
        final(out)@ == old(out)@ + name@,
{
    let mut i: usize = 0;
    while i < name.len()
        invariant
            i <= name@.len(),
            out@ == old(out)@ + name@.take(i as int),
        decreases name@.len() - i,
    {
        out.push(name[i]);
        proof {
            assert(old(out)@ + name@.take(i + 1) =~= (old(out)@ + name@.take(i as int)).push(
                name@[i as int],
            ));
        }
        i += 1;
    }
    proof {
        assert(old(out)@ + name@.take(name@.len() as int) =~= old(out)@ + name@);
    }
}

/// One path component joined onto a path, with the separator rule of
/// `join_component`.
fn join_component_exec(p: &Vec<u8>, name: &Vec<u8>) -> (r: Vec<u8>)
    ensures
        r@ == join_component(p@, name@),
{
    let mut r: Vec<u8> = Vec::new();
    if p.len() == 0 {
        push_all(&mut r, name);
        proof {
            assert(r@ =~= join_component(p@, name@));
        }
        return r;
    }
    push_all(&mut r, p);
    if p[p.len() - 1] != 47 {
        r.push(47);
    }
    push_all(&mut r, name);
    proof {
        if p@.last() == slash() {
            assert(r@ =~= p@ + name@);
        } else {
            assert(r@ =~= p@ + seq![slash()] + name@);
        }
    }
    r
}

/// The pieces of a byte string split at every colon.
fn split_colon_exec(s: &Vec<u8>) -> (r: Vec<Vec<u8>>)
    ensures
        r@.len() == split_colon(s@).len(),
        forall|k: int| 0 <= k < r@.len() ==> r@[k]@ == split_colon(s@)[k],
{
    let ghost pieces = split_colon(s@);
    let mut r: Vec<Vec<u8>> = Vec::new();
    let mut cur: Vec<u8> = Vec::new();
    let mut i: usize = 0;
    proof {
        assert(s@.skip(0) =~= s@);
    }
    while i < s.len()
        invariant
            i <= s@.len(),
            pieces == split_colon(s@),
            pieces =~= r@.map_values(|v: Vec<u8>| v@) + split_colon_rec(
                s@.skip(i as int),
                cur@,
            ),
        decreases s@.len() - i,
    {
        proof {
            assert(s@.skip(i as int).first() == s@[i as int]);
            assert(s@.skip(i as int).drop_first() =~= s@.skip(i + 1));
        }
        if s[i] == 58 {
            r.push(cur);
            cur = Vec::new();
            proof {
                assert(r@.map_values(|v: Vec<u8>| v@) =~= r@.drop_last().map_values(
                    |v: Vec<u8>| v@,
                ).push(r@.last()@));
            }
        } else {
            cur.push(s[i]);
        }
        i += 1;
    }
    proof {
        assert(s@.skip(s@.len() as int) =~= Seq::<u8>::empty());
    }
    r.push(cur);
    proof {
        assert(r@.map_values(|v: Vec<u8>| v@) =~= r@.drop_last().map_values(|v: Vec<u8>| v@).push(
            r@.last()@,
        ));
        assert(pieces =~= r@.map_values(|v: Vec<u8>| v@));
    }
    r
}

/// The ordered directory roots to scan for desktop-entry files, as byte
/// strings. The arguments are the raw values of the `XDG_DATA_HOME` and
/// `XDG_DATA_DIRS` environment entries (absent ones as `None`) and of
/// `HOME`; the host reads them and afterwards drops roots that do not exist
/// on disk.
pub fn search_roots(
    xdg_data_home: &Option<Vec<u8>>,
    home: &Vec<u8>,
    xdg_data_dirs: &Option<Vec<u8>>,
) -> (r: Vec<Vec<u8>>)
    ensures
        ({
            let expected = search_roots_spec(
                match xdg_data_home {
                    Some(d) => Some(d@),
                    None => None,
                },
                home@,
                match xdg_data_dirs {
                    Some(d) => Some(d@),
                    None => None,
                },
            );
            r@.len() == expected.len() && forall|k: int|
                0 <= k < r@.len() ==> r@[k]@ == expected[k]
        }),
{
    let ghost expected = search_roots_spec(
        match xdg_data_home {
            Some(d) => Some(d@),
            None => None,
        },
        home@,
        match xdg_data_dirs {
            Some(d) => Some(d@),
            None => None,
        },
    );
    let applications: Vec<u8> = vec![97, 112, 112, 108, 105, 99, 97, 116, 105, 111, 110, 115];
    proof {
        assert(applications@ =~= applications_name());
    }
    let user_data: Vec<u8> = match xdg_data_home {
        Some(d) => {
            let mut c: Vec<u8> = Vec::new();
            push_all(&mut c, d);
            proof {
                assert(c@ =~= d@);
            }
            c
        },
        None => {
            let dot_local: Vec<u8> = vec![46, 108, 111, 99, 97, 108];
            let share: Vec<u8> = vec![115, 104, 97, 114, 101];
            proof {
                assert(dot_local@ =~= dot_local_name());
                assert(share@ =~= share_name());
            }
            let with_local = join_component_exec(home, &dot_local);
            join_component_exec(&with_local, &share)
        },
    };
    let dirs: Vec<u8> = match xdg_data_dirs {
        Some(d) => {
            let mut c: Vec<u8> = Vec::new();
            push_all(&mut c, d);
            proof {
                assert(c@ =~= d@);
            }
            c
        },
        None => {
            let default_dirs: Vec<u8> = vec![
                47, 117, 115, 114, 47, 108, 111, 99, 97, 108, 47, 115, 104, 97, 114, 101, 47,
                58, 47, 117, 115, 114, 47, 115, 104, 97, 114, 101, 47,
            ];
            proof {
                assert(default_dirs@ =~= default_data_dirs());
            }
            default_dirs
        },
    };
    let mut r: Vec<Vec<u8>> = Vec::new();
    r.push(join_component_exec(&user_data, &applications));
    let pieces = split_colon_exec(&dirs);
    let mut i: usize = 0;
    while i < pieces.len()
        invariant
            i <= pieces@.len(),
            applications@ == applications_name(),
            expected.len() == 1 + pieces@.len(),
            r@.len() == 1 + i,
            forall|k: int| 0 <= k < r@.len() ==> r@[k]@ == expected[k],
            forall|k: int|
                0 <= k < pieces@.len() ==> expected[k + 1] == join_component(
                    pieces@[k]@,
                    applications_name(),
                ),
        decreases pieces@.len() - i,
    {
        r.push(join_component_exec(&pieces[i], &applications));
        i += 1;
    }
    r
}

} // verus!
