//! Lists of applications that can be offered for protection: what is
//! running, what is installed, and the two merged. Every list is ordered by
//! display name, in code-point order, and keeps entries of equal name in the
//! order in which they were found.

use crate::monitor::{
    display_name, format_display_name, is_system_name, is_system_process, AppCandidate,
    AppCandidateView, ProcessInfo, ProcessInfoView, ProcessMonitor,
};
use crate::text::{chars_of, lemma_lex_le_total, lemma_lex_le_transitive, lex_le, lex_order};
use vstd::prelude::*;
use vstd::string::StringExecFns;

verus! {

/// The entries stand in ascending order of display name.
pub open spec fn sorted_by_name(s: Seq<AppCandidateView>) -> bool {
    forall|i: int, j: int| 0 <= i <= j < s.len() ==> lex_le(#[trigger] s[i].name, #[trigger] s[j].name)
}

/// `s` with `x` put in behind the last entry whose name is not greater.
pub open spec fn insert_by_name(s: Seq<AppCandidateView>, x: AppCandidateView) -> Seq<
    AppCandidateView,
>
    decreases s.len(),
{
    if s.len() == 0 {
        seq![x]
    } else if lex_le(s.last().name, x.name) {
        s.push(x)
    } else {
        insert_by_name(s.drop_last(), x).push(s.last())
    }
}

/// The entries of `s` in ascending order of display name; entries of equal
/// name keep their order.
pub open spec fn sort_by_name(s: Seq<AppCandidateView>) -> Seq<AppCandidateView>
    decreases s.len(),
{
    if s.len() == 0 {
        s
    } else {
        insert_by_name(sort_by_name(s.drop_last()), s.last())
    }
}

/// Putting an entry into an ordered list leaves it ordered, one longer, and
/// holding what it held and the entry.
pub proof fn lemma_insert_by_name(s: Seq<AppCandidateView>, x: AppCandidateView)
    requires
        sorted_by_name(s),
    ensures
        sorted_by_name(insert_by_name(s, x)),
        insert_by_name(s, x).len() == s.len() + 1,
        insert_by_name(s, x).to_multiset() == s.to_multiset().insert(x),
        forall|y: AppCandidateView| #[trigger]
            insert_by_name(s, x).contains(y) ==> y == x || s.contains(y),
    decreases s.len(),
{
    broadcast use vstd::seq_lib::group_to_multiset_ensures;

    let r = insert_by_name(s, x);
    if s.len() == 0 {
        assert(r =~= Seq::<AppCandidateView>::empty().push(x));
        lemma_lex_le_total(x.name, x.name);
    } else if lex_le(s.last().name, x.name) {
        assert forall|i: int, j: int| 0 <= i <= j < r.len() implies lex_le(
            #[trigger] r[i].name,
            #[trigger] r[j].name,
        ) by {
            if j == s.len() && i < s.len() {
                lemma_lex_le_transitive(s[i].name, s.last().name, x.name);
            } else if j == s.len() {
                lemma_lex_le_total(x.name, x.name);
            }
        }
    } else {
        let head = s.drop_last();
        let inner = insert_by_name(head, x);
        lemma_insert_by_name(head, x);
        lemma_lex_le_total(s.last().name, x.name);
        assert forall|i: int, j: int| 0 <= i <= j < r.len() implies lex_le(
            #[trigger] r[i].name,
            #[trigger] r[j].name,
        ) by {
            if j == r.len() - 1 {
                if i < r.len() - 1 {
                    assert(inner.contains(inner[i]));
                    if inner[i] == x {
                    } else {
                        let k = choose|k: int| 0 <= k < head.len() && head[k] == inner[i];
                        assert(lex_le(s[k].name, s[s.len() - 1].name));
                    }
                } else {
                    lemma_lex_le_total(s.last().name, s.last().name);
                }
            }
        }
        assert(s =~= head.push(s.last()));
        assert(r.to_multiset() =~= s.to_multiset().insert(x));
        assert forall|y: AppCandidateView| #[trigger] r.contains(y) implies y == x || s.contains(
            y,
        ) by {
            let k = choose|k: int| 0 <= k < r.len() && r[k] == y;
            if k < inner.len() {
                assert(inner.contains(y));
                if y != x {
                    let m = choose|m: int| 0 <= m < head.len() && head[m] == y;
                    assert(s[m] == y);
                }
            } else {
                assert(s[s.len() - 1] == y);
            }
        }
    }
}

/// The sorted list is in ascending order of display name and holds exactly
/// the entries of the list that was sorted, each as often.
pub proof fn lemma_sort_by_name(s: Seq<AppCandidateView>)
    ensures
        sorted_by_name(sort_by_name(s)),
        sort_by_name(s).len() == s.len(),
        sort_by_name(s).to_multiset() == s.to_multiset(),
    decreases s.len(),
{
    broadcast use vstd::seq_lib::group_to_multiset_ensures;

    if s.len() > 0 {
        lemma_sort_by_name(s.drop_last());
        lemma_insert_by_name(sort_by_name(s.drop_last()), s.last());
        assert(s =~= s.drop_last().push(s.last()));
    }
}

/// Where `x` goes in `s`: behind the last entry whose name is not greater.
proof fn lemma_insert_position(s: Seq<AppCandidateView>, x: AppCandidateView, pos: int)
    requires
        0 <= pos <= s.len(),
        forall|k: int| pos <= k < s.len() ==> !lex_le(#[trigger] s[k].name, x.name),
        pos > 0 ==> lex_le(s[pos - 1].name, x.name),
    ensures
        insert_by_name(s, x) == s.insert(pos, x),
    decreases s.len(),
{
    if s.len() == 0 {
        assert(s.insert(pos, x) =~= seq![x]);
    } else if pos == s.len() {
        assert(s.insert(pos, x) =~= s.push(x));
    } else {
        assert(!lex_le(s[s.len() - 1].name, x.name));
        lemma_insert_position(s.drop_last(), x, pos);
        assert(s.insert(pos, x) =~= s.drop_last().insert(pos, x).push(s.last()));
    }
}

/// A copy of a candidate.
pub fn copy_candidate(c: &AppCandidate) -> (r: AppCandidate)
    ensures
        r.deep_view() == c.deep_view(),
{
    AppCandidate {
        name: c.name.clone(),
        process_name: c.process_name.clone(),
        exe_path: match &c.exe_path {
            Some(p) => Some(p.clone()),
            None => None,
        },
        category: c.category.clone(),
    }
}

/// Orders the candidates by display name; candidates of equal name keep
/// their order.
pub fn sort_candidates(candidates: &Vec<AppCandidate>) -> (r: Vec<AppCandidate>)
    ensures
        r.deep_view() == sort_by_name(candidates.deep_view()),
{
    let mut r: Vec<AppCandidate> = Vec::new();
    let mut i: usize = 0;
    assert(candidates.deep_view().take(0) =~= Seq::empty());
    assert(r.deep_view() =~= Seq::empty());
    while i < candidates.len()
        invariant
            i <= candidates.len(),
            r.len() == i,
            r.deep_view() == sort_by_name(candidates.deep_view().take(i as int)),
        decreases candidates.len() - i,
    {
        let x = copy_candidate(&candidates[i]);
        let key = chars_of(x.name.as_str());
        let mut pos: usize = r.len();
        while pos > 0 && !lex_order(&chars_of(r[pos - 1].name.as_str()), &key)
            invariant
                pos <= r.len(),
                key@ == x.name@,
                forall|k: int|
                    pos <= k < r.len() ==> !lex_le(#[trigger] r.deep_view()[k].name, x.name@),
            decreases pos,
        {
            assert(r.deep_view()[pos - 1].name == r[pos - 1].name@);
            pos -= 1;
        }
        proof {
            if pos > 0 {
                assert(r.deep_view()[pos - 1].name == r[pos - 1].name@);
            }
            lemma_insert_position(r.deep_view(), x.deep_view(), pos as int);
            assert(candidates.deep_view().take(i + 1).drop_last() =~= candidates.deep_view().take(
                i as int,
            ));
            assert(candidates.deep_view().take(i + 1).last() == x.deep_view());
        }
        let ghost before = r.deep_view();
        let ghost xv = x.deep_view();
        r.insert(pos, x);
        assert(r.deep_view() =~= before.insert(pos as int, xv));
        i += 1;
    }
    assert(candidates.deep_view().take(candidates.len() as int) =~= candidates.deep_view());
    r
}

/// Whether the process at `i` bears a name that an earlier process of the
/// snapshot bears too.
pub open spec fn seen_before(processes: Seq<ProcessInfoView>, i: int) -> bool {
    exists|j: int| 0 <= j < i && (#[trigger] processes[j]).name == processes[i].name
}

/// The candidate that a running process gives.
pub open spec fn running_candidate(process: ProcessInfoView) -> AppCandidateView {
    AppCandidateView {
        name: display_name(process.name),
        process_name: process.name,
        exe_path: process.exe_path,
        category: "Running"@,
    }
}

/// One candidate for each name that occurs in the snapshot and does not
/// belong to the system, made from the first process of that name, in the
/// order of the snapshot.
pub open spec fn unique_candidates(processes: Seq<ProcessInfoView>) -> Seq<AppCandidateView>
    decreases processes.len(),
{
    if processes.len() == 0 {
        Seq::empty()
    } else {
        let before = unique_candidates(processes.drop_last());
        let last = processes.last();
        if is_system_name(last.name) || seen_before(processes, processes.len() - 1) {
            before
        } else {
            before.push(running_candidate(last))
        }
    }
}

/// Directories in which installed applications are looked for, in the order
/// in which they are tried.
pub open spec fn search_paths() -> Seq<Seq<char>> {
    seq!["/usr/bin"@, "/usr/local/bin"@, "/snap/bin"@, "/var/lib/flatpak/exports/bin"@]
}

/// The applications that are looked for: binary, display name, category.
pub open spec fn common_apps() -> Seq<(Seq<char>, Seq<char>, Seq<char>)> {
    seq![
        ("firefox"@, "Firefox"@, "Browser"@),
        ("google-chrome"@, "Google Chrome"@, "Browser"@),
        ("google-chrome-stable"@, "Google Chrome"@, "Browser"@),
        ("chromium"@, "Chromium"@, "Browser"@),
        ("chromium-browser"@, "Chromium"@, "Browser"@),
        ("brave"@, "Brave Browser"@, "Browser"@),
        ("brave-browser"@, "Brave Browser"@, "Browser"@),
        ("brave-browser-stable"@, "Brave Browser"@, "Browser"@),
        ("code"@, "Visual Studio Code"@, "Development"@),
        ("discord"@, "Discord"@, "Communication"@),
        ("slack"@, "Slack"@, "Communication"@),
        ("spotify"@, "Spotify"@, "Media"@),
        ("vlc"@, "VLC Media Player"@, "Media"@),
        ("steam"@, "Steam"@, "Gaming"@),
        ("gimp"@, "GIMP"@, "Graphics"@),
        ("obs"@, "OBS Studio"@, "Media"@),
        ("telegram"@, "Telegram"@, "Communication"@),
        ("telegram-desktop"@, "Telegram"@, "Communication"@),
        ("zoom"@, "Zoom"@, "Communication"@),
    ]
}

/// The path of `binary` in the directory `dir`.
pub open spec fn full_path(dir: Seq<char>, binary: Seq<char>) -> Seq<char> {
    dir + "/"@ + binary
}

/// The path under which `binary` is installed: its path in the first of the
/// search paths, from index `from` on, in which it exists.
pub open spec fn installed_path(existing: Seq<Seq<char>>, binary: Seq<char>, from: int) -> Option<
    Seq<char>,
>
    decreases search_paths().len() - from,
{
    if from < 0 || from >= search_paths().len() {
        None
    } else if existing.contains(full_path(search_paths()[from], binary)) {
        Some(full_path(search_paths()[from], binary))
    } else {
        installed_path(existing, binary, from + 1)
    }
}

/// The candidate that an application of the catalogue gives, if it is
/// installed.
pub open spec fn installed_candidate(
    existing: Seq<Seq<char>>,
    app: (Seq<char>, Seq<char>, Seq<char>),
) -> Option<AppCandidateView> {
    match installed_path(existing, app.0, 0) {
        Some(path) => Some(
            AppCandidateView {
                name: app.1,
                process_name: app.0,
                exe_path: Some(path),
                category: app.2,
            },
        ),
        None => None,
    }
}

/// The installed applications of the catalogue, in its order.
pub open spec fn installed_candidates(existing: Seq<Seq<char>>) -> Seq<AppCandidateView> {
    common_apps().filter_map(
        |app: (Seq<char>, Seq<char>, Seq<char>)| installed_candidate(existing, app),
    )
}

/// Whether one of the candidates stands for the process name.
pub open spec fn names_process(candidates: Seq<AppCandidateView>, process_name: Seq<char>) -> bool {
    exists|i: int| 0 <= i < candidates.len() && (#[trigger] candidates[i]).process_name == process_name
}

/// The installed candidates, followed by those running candidates whose
/// process name no installed candidate bears.
pub open spec fn merged_candidates(
    installed: Seq<AppCandidateView>,
    running: Seq<AppCandidateView>,
) -> Seq<AppCandidateView> {
    installed + running.filter(|c: AppCandidateView| !names_process(installed, c.process_name))
}

/// The [`search_paths`] as strings.
fn search_path_list() -> (r: Vec<&'static str>)
    ensures
        r.deep_view() == search_paths(),
{
    let r = vec!["/usr/bin", "/usr/local/bin", "/snap/bin", "/var/lib/flatpak/exports/bin"];
    assert(r.deep_view() =~= search_paths());
    r
}

/// The [`common_apps`] as strings.
fn common_app_list() -> (r: Vec<(&'static str, &'static str, &'static str)>)
    ensures
        r.deep_view() == common_apps(),
{
    let r = vec![
        ("firefox", "Firefox", "Browser"),
        ("google-chrome", "Google Chrome", "Browser"),
        ("google-chrome-stable", "Google Chrome", "Browser"),
        ("chromium", "Chromium", "Browser"),
        ("chromium-browser", "Chromium", "Browser"),
        ("brave", "Brave Browser", "Browser"),
        ("brave-browser", "Brave Browser", "Browser"),
        ("brave-browser-stable", "Brave Browser", "Browser"),
        ("code", "Visual Studio Code", "Development"),
        ("discord", "Discord", "Communication"),
        ("slack", "Slack", "Communication"),
        ("spotify", "Spotify", "Media"),
        ("vlc", "VLC Media Player", "Media"),
        ("steam", "Steam", "Gaming"),
        ("gimp", "GIMP", "Graphics"),
        ("obs", "OBS Studio", "Media"),
        ("telegram", "Telegram", "Communication"),
        ("telegram-desktop", "Telegram", "Communication"),
        ("zoom", "Zoom", "Communication"),
    ];
    assert(r.deep_view() =~= common_apps());
    r
}

/// The path of `binary` in the directory `dir`.
fn join_path(dir: &str, binary: &str) -> (r: String)
    ensures
        r@ == full_path(dir@, binary@),
{
    let mut r = String::from_str(dir);
    r.append("/");
    r.append(binary);
    r
}

/// Whether `path` is one of `existing`.
fn is_listed(existing: &Vec<String>, path: &String) -> (r: bool)
    ensures
        r == existing.deep_view().contains(path@),
{
    let mut i: usize = 0;
    while i < existing.len()
        invariant
            i <= existing.len(),
            forall|j: int| 0 <= j < i ==> existing.deep_view()[j] != path@,
        decreases existing.len() - i,
    {
        assert(existing.deep_view()[i as int] == existing[i as int]@);
        if existing[i] == *path {
            return true;
        }
        i += 1;
    }
    false
}

impl ProcessMonitor {
    /// The running applications that can be offered: one candidate for each
    /// process name of the snapshot that does not belong to the system,
    /// ordered by display name.
    pub fn get_unique_processes(processes: &Vec<ProcessInfo>) -> (r: Vec<AppCandidate>)
        ensures
            r.deep_view() == sort_by_name(unique_candidates(processes.deep_view())),
    {
        let mut found: Vec<AppCandidate> = Vec::new();
        let mut i: usize = 0;
        assert(processes.deep_view().take(0) =~= Seq::empty());
        assert(found.deep_view() =~= Seq::empty());
        while i < processes.len()
            invariant
                i <= processes.len(),
                found.deep_view() == unique_candidates(processes.deep_view().take(i as int)),
            decreases processes.len() - i,
        {
            let process = &processes[i];
            let ghost all = processes.deep_view();
            let ghost upto = all.take(i + 1);
            assert(upto.drop_last() =~= all.take(i as int));
            assert(upto.last() == process.deep_view());
            let mut seen = false;
            let mut j: usize = 0;
            while j < i && !seen
                invariant
                    j <= i < processes.len(),
                    all == processes.deep_view(),
                    process.deep_view() == all[i as int],
                    seen ==> seen_before(all, i as int),
                    !seen ==> forall|k: int| 0 <= k < j ==> (#[trigger] all[k]).name != all[i as int].name,
                decreases i - j,
            {
                assert(all[j as int].name == processes[j as int].name@);
                if processes[j].name == process.name {
                    seen = true;
                }
                j += 1;
            }
            assert(seen == seen_before(upto, i as int)) by {
                if seen {
                    let k = choose|k: int| 0 <= k < i && (#[trigger] all[k]).name == all[i as int].name;
                    assert(upto[k].name == upto[i as int].name);
                } else if seen_before(upto, i as int) {
                    let k = choose|k: int| 0 <= k < i && (#[trigger] upto[k]).name == upto[i as int].name;
                    assert(all[k].name == all[i as int].name);
                }
            }
            if !seen && !is_system_process(process.name.as_str()) {
                let ghost before = found.deep_view();
                let candidate = AppCandidate {
                    name: format_display_name(process.name.as_str()),
                    process_name: process.name.clone(),
                    exe_path: match &process.exe_path {
                        Some(p) => Some(p.clone()),
                        None => None,
                    },
                    category: String::from_str("Running"),
                };
                assert(candidate.deep_view() == running_candidate(process.deep_view()));
                found.push(candidate);
                assert(found.deep_view() =~= before.push(running_candidate(process.deep_view())));
            }
            i += 1;
        }
        assert(processes.deep_view().take(processes.len() as int) =~= processes.deep_view());
        sort_candidates(&found)
    }

    /// Every path at which an application of the catalogue may be installed.
    /// The caller finds out which of them exist and hands those to
    /// [`ProcessMonitor::get_installed_apps`].
    pub fn installation_paths() -> (r: Vec<String>)
        ensures
            r.len() == common_apps().len() * search_paths().len(),
            forall|a: int, d: int|
                0 <= a < common_apps().len() && 0 <= d < search_paths().len() ==> r.deep_view()[a
                    * search_paths().len() + d] == full_path(
                    #[trigger] search_paths()[d],
                    (#[trigger] common_apps()[a]).0,
                ),
    {
        let apps = common_app_list();
        let dirs = search_path_list();
        let mut r: Vec<String> = Vec::new();
        let mut a: usize = 0;
        assert(apps.len() == apps.deep_view().len() && common_apps().len() == 19);
        assert(dirs.len() == dirs.deep_view().len() && search_paths().len() == 4);
        assert(r.deep_view().len() == r.len());
        while a < apps.len()
            invariant
                apps.deep_view() == common_apps(),
                dirs.deep_view() == search_paths(),
                apps.len() == 19,
                dirs.len() == 4,
                a <= apps.len(),
                r.len() == a * 4,
                forall|x: int, d: int|
                    0 <= x < a && 0 <= d < 4 ==> r.deep_view()[x * 4 + d] == full_path(
                        #[trigger] search_paths()[d],
                        (#[trigger] common_apps()[x]).0,
                    ),
            decreases apps.len() - a,
        {
            let mut d: usize = 0;
            while d < dirs.len()
                invariant
                    apps.deep_view() == common_apps(),
                    dirs.deep_view() == search_paths(),
                    apps.len() == 19,
                    dirs.len() == 4,
                    a < apps.len(),
                    d <= dirs.len(),
                    r.len() == a * 4 + d,
                    forall|x: int, y: int|
                        0 <= x < a && 0 <= y < 4 ==> r.deep_view()[x * 4 + y] == full_path(
                            #[trigger] search_paths()[y],
                            (#[trigger] common_apps()[x]).0,
                        ),
                    forall|y: int|
                        0 <= y < d ==> r.deep_view()[a * 4 + y] == full_path(
                            #[trigger] search_paths()[y],
                            common_apps()[a as int].0,
                        ),
                decreases dirs.len() - d,
            {
                let ghost before = r.deep_view();
                assert(apps.deep_view()[a as int].0 == apps[a as int].0@);
                assert(dirs.deep_view()[d as int] == dirs[d as int]@);
                let path = join_path(dirs[d], apps[a].0);
                r.push(path);
                assert(r.deep_view() =~= before.push(
                    full_path(search_paths()[d as int], common_apps()[a as int].0),
                ));
                d += 1;
            }
            a += 1;
        }
        r
    }

    /// The installed applications of the catalogue, ordered by display
    /// name. `existing` holds the paths that exist on this machine; an
    /// application is installed where its binary exists in one of the search
    /// paths, and the first such path is reported.
    pub fn get_installed_apps(existing: &Vec<String>) -> (r: Vec<AppCandidate>)
        ensures
            r.deep_view() == sort_by_name(installed_candidates(existing.deep_view())),
    {
        let apps = common_app_list();
        let dirs = search_path_list();
        let ghost pick = |app: (Seq<char>, Seq<char>, Seq<char>)|
            installed_candidate(existing.deep_view(), app);
        let mut found: Vec<AppCandidate> = Vec::new();
        let mut a: usize = 0;
        assert(common_apps().take(0) =~= Seq::empty());
        assert(found.deep_view() =~= Seq::empty());
        while a < apps.len()
            invariant
                apps.deep_view() == common_apps(),
                dirs.deep_view() == search_paths(),
                a <= apps.len(),
                pick == |app: (Seq<char>, Seq<char>, Seq<char>)|
                    installed_candidate(existing.deep_view(), app),
                found.deep_view() == common_apps().take(a as int).filter_map(pick),
            decreases apps.len() - a,
        {
            let app = &apps[a];
            let ghost binary = common_apps()[a as int].0;
            assert(apps.deep_view()[a as int] == (app.0@, app.1@, app.2@));
            proof {
                common_apps().lemma_filter_map_take_succ(pick, a as int);
            }
            let mut at: Option<String> = None;
            let mut d: usize = 0;
            while d < dirs.len() && at.is_none()
                invariant
                    dirs.deep_view() == search_paths(),
                    d <= dirs.len(),
                    binary == app.0@,
                    at is None ==> installed_path(existing.deep_view(), binary, 0) == installed_path(
                        existing.deep_view(),
                        binary,
                        d as int,
                    ),
                    at is Some ==> installed_path(existing.deep_view(), binary, 0) == Some(
                        at->0@,
                    ),
                decreases dirs.len() - d,
            {
                assert(dirs.deep_view()[d as int] == dirs[d as int]@);
                let path = join_path(dirs[d], app.0);
                if is_listed(existing, &path) {
                    at = Some(path);
                }
                d += 1;
            }
            match at {
                Some(path) => {
                    let ghost before = found.deep_view();
                    let candidate = AppCandidate {
                        name: String::from_str(app.1),
                        process_name: String::from_str(app.0),
                        exe_path: Some(path),
                        category: String::from_str(app.2),
                    };
                    assert(Some(candidate.deep_view()) == pick(common_apps()[a as int]));
                    found.push(candidate);
                    assert(found.deep_view() =~= before.push(pick(common_apps()[a as int])->0));
                },
                None => {},
            }
            a += 1;
        }
        assert(common_apps().take(apps.len() as int) =~= common_apps());
        sort_candidates(&found)
    }
}

/// All candidates to offer: the installed ones, then the running ones that
/// are not installed. Where both lists know a process name, the installed
/// entry stands for it.
pub fn get_app_candidates(installed: &Vec<AppCandidate>, running: &Vec<AppCandidate>) -> (r: Vec<
    AppCandidate,
>)
    ensures
        r.deep_view() == merged_candidates(installed.deep_view(), running.deep_view()),
{
    let mut r: Vec<AppCandidate> = Vec::new();
    let mut i: usize = 0;
    assert(r.deep_view() =~= installed.deep_view().take(0));
    while i < installed.len()
        invariant
            i <= installed.len(),
            r.deep_view() == installed.deep_view().take(i as int),
        decreases installed.len() - i,
    {
        let ghost before = r.deep_view();
        let c = copy_candidate(&installed[i]);
        assert(c.deep_view() == installed.deep_view()[i as int]);
        r.push(c);
        assert(r.deep_view() =~= before.push(installed.deep_view()[i as int]));
        assert(installed.deep_view().take(i + 1) =~= before.push(installed.deep_view()[i as int]));
        i += 1;
    }
    assert(installed.deep_view().take(installed.len() as int) =~= installed.deep_view());
    let ghost fresh = |c: AppCandidateView| !names_process(installed.deep_view(), c.process_name);
    let mut k: usize = 0;
    proof {
        reveal(Seq::filter);
        assert(running.deep_view().take(0) =~= Seq::empty());
        assert(r.deep_view() =~= installed.deep_view() + running.deep_view().take(0).filter(fresh));
    }
    while k < running.len()
        invariant
            k <= running.len(),
            fresh == |c: AppCandidateView| !names_process(installed.deep_view(), c.process_name),
            r.deep_view() == installed.deep_view() + running.deep_view().take(k as int).filter(
                fresh,
            ),
        decreases running.len() - k,
    {
        let candidate = &running[k];
        let ghost cv = running.deep_view()[k as int];
        assert(cv == candidate.deep_view());
        let mut known = false;
        let mut j: usize = 0;
        while j < installed.len() && !known
            invariant
                j <= installed.len(),
                cv.process_name == candidate.process_name@,
                known ==> names_process(installed.deep_view(), cv.process_name),
                !known ==> forall|m: int|
                    0 <= m < j ==> (#[trigger] installed.deep_view()[m]).process_name
                        != cv.process_name,
            decreases installed.len() - j,
        {
            assert(installed.deep_view()[j as int].process_name == installed[j as int].process_name@);
            if installed[j].process_name == candidate.process_name {
                known = true;
            }
            j += 1;
        }
        proof {
            reveal(Seq::filter);
            assert(running.deep_view().take(k + 1).drop_last() =~= running.deep_view().take(
                k as int,
            ));
            assert(running.deep_view().take(k + 1).last() == cv);
            assert(known == names_process(installed.deep_view(), cv.process_name));
        }
        if !known {
            let ghost before = r.deep_view();
            r.push(copy_candidate(candidate));
            assert(r.deep_view() =~= before.push(cv));
        }
        k += 1;
    }
    assert(running.deep_view().take(running.len() as int) =~= running.deep_view());
    r
}

} // verus!
