//! Read-only portfolio content and the sizes derived from it.
use vstd::prelude::*;
use vstd::string::*;

verus! {

/// One project entry: name, one-line description, stack and link.
#[derive(Clone, Copy)]
pub struct Project {
    pub name: &'static str,
    pub description: &'static str,
    pub tech: &'static str,
    pub url: &'static str,
}

/// A titled group of projects.
pub struct ProjectCategory {
    pub name: &'static str,
    pub projects: Vec<Project>,
}

/// A titled list of skills.
pub struct SkillGroup {
    pub name: &'static str,
    pub items: Vec<&'static str>,
}

/// One way to get in touch.
#[derive(Clone, Copy)]
pub struct ContactEntry {
    pub label: &'static str,
    pub value: &'static str,
}

// ── Model of the tables ────────────────────────────────────────

/// The banner text, line by line.
pub open spec fn banner_view() -> Seq<Seq<char>> {
    seq![
        r" __   __                _      _    "@,
        r" \ \ / /_ _ _ __  _ __ (_) ___| | __"@,
        r"  \ V / _` | '_ \| '_ \| |/ __| |/ /"@,
        r"   | | (_| | | | | | | | | (__|   < "@,
        r"   |_|\__,_|_| |_|_| |_|_|\___|_|\_\"@,    ]
}

/// Number of projects in each category, in display order.
pub open spec fn category_sizes() -> Seq<nat> {
    seq![3, 2, 3, 3, 4]
}

pub open spec fn about_line_count() -> nat {
    20
}

pub open spec fn skill_group_count() -> nat {
    6
}

pub open spec fn contact_entry_count() -> nat {
    4
}

/// Number of projects in each of `cats`.
pub open spec fn sizes_of(cats: Seq<ProjectCategory>) -> Seq<nat> {
    cats.map_values(|c: ProjectCategory| c.projects@.len())
}

pub open spec fn sum(s: Seq<nat>) -> nat
    decreases s.len(),
{
    if s.len() == 0 {
        0
    } else {
        sum(s.drop_last()) + s.last()
    }
}

/// Total number of characters over `lines`, line breaks not counted.
pub open spec fn char_sum(lines: Seq<Seq<char>>) -> nat
    decreases lines.len(),
{
    if lines.len() == 0 {
        0
    } else {
        char_sum(lines.drop_last()) + lines.last().len()
    }
}

/// Characters of the banner, counting one line break after each line.
pub open spec fn banner_total() -> nat {
    char_sum(banner_view()) + banner_view().len()
}

/// Lines taken by a category of `n` projects: a header, a blank line, and
/// four lines per project with a blank line between projects.
pub open spec fn category_lines(n: nat) -> nat {
    if n == 0 {
        2
    } else {
        5 * n + 1
    }
}

/// Lines taken by categories of the given sizes, with a blank line between
/// categories.
pub open spec fn project_lines(sizes: Seq<nat>) -> nat
    decreases sizes.len(),
{
    if sizes.len() == 0 {
        0
    } else {
        project_lines(sizes.drop_last()) + category_lines(sizes.last()) + if sizes.len() > 1 {
            1nat
        } else {
            0nat
        }
    }
}

/// Lines taken by `n` skill groups: a header and an item line each, with a
/// blank line between groups.
pub open spec fn skill_lines(n: nat) -> nat {
    if n == 0 {
        0
    } else {
        (3 * n - 1) as nat
    }
}

/// Lines of the Contact section: an intro, a blank, the entries, a blank and
/// an outro.
pub open spec fn contact_lines(n: nat) -> nat {
    n + 4
}

/// Where the project at `idx` in the flat list stands: category and position
/// in it, or `None` past the last project.
pub open spec fn flat_position(sizes: Seq<nat>, idx: nat) -> Option<(nat, nat)>
    decreases sizes.len(),
{
    if sizes.len() == 0 {
        None
    } else if idx < sizes[0] {
        Some((0nat, idx))
    } else {
        match flat_position(sizes.drop_first(), (idx - sizes[0]) as nat) {
            Some((c, p)) => Some((c + 1, p)),
            None => None,
        }
    }
}

// ── Facts about the tables ─────────────────────────────────────

proof fn lemma_banner_shape()
    ensures
        banner_view().len() == 5,
        forall|i: int| 0 <= i < 5 ==> (#[trigger] banner_view()[i]).len() == 36,
{
    reveal_strlit(r" __   __                _      _    ");
    reveal_strlit(r" \ \ / /_ _ _ __  _ __ (_) ___| | __");
    reveal_strlit(r"  \ V / _` | '_ \| '_ \| |/ __| |/ /");
    reveal_strlit(r"   | | (_| | | | | | | | | (__|   < ");
    reveal_strlit(r"   |_|\__,_|_| |_|_| |_|_|\___|_|\_\");
}

/// The banner has 185 characters, line breaks included.
pub proof fn lemma_banner_total()
    ensures
        banner_total() == 185,
{
    lemma_banner_shape();
    let b = banner_view();
    reveal_with_fuel(char_sum, 6);
    assert(b.drop_last().drop_last().drop_last().drop_last().drop_last().len() == 0);
}

/// The project tables take 84 lines and hold 15 projects.
pub proof fn lemma_project_totals()
    ensures
        project_lines(category_sizes()) == 84,
        sum(category_sizes()) == 15,
{
    reveal_with_fuel(project_lines, 6);
    reveal_with_fuel(sum, 6);
    let s = category_sizes();
    assert(s.drop_last() =~= seq![3nat, 2, 3, 3]);
    assert(s.drop_last().drop_last() =~= seq![3nat, 2, 3]);
    assert(s.drop_last().drop_last().drop_last() =~= seq![3nat, 2]);
    assert(s.drop_last().drop_last().drop_last().drop_last() =~= seq![3nat]);
    assert(s.drop_last().drop_last().drop_last().drop_last().drop_last() =~= Seq::<nat>::empty());
}

// ── Derived sizes ──────────────────────────────────────────────

/// Total number of banner characters that the typewriter reveals, one line
/// break per line included.
pub fn banner_char_count() -> (r: usize)
    ensures
        r == banner_total(),
        r == 185,
{
    let lines = banner();
    proof {
        lemma_banner_shape();
        lemma_banner_total();
    }
    let ghost b = banner_view();
    let mut total: usize = 0;
    let mut i: usize = 0;
    while i < lines.len()
        invariant
            i <= lines@.len(),
            lines@.len() == b.len(),
            b == banner_view(),
            b.len() == 5,
            forall|k: int| 0 <= k < 5 ==> (#[trigger] b[k]).len() == 36,
            forall|k: int| 0 <= k < lines@.len() ==> (#[trigger] lines@[k])@ == b[k],
            total == char_sum(b.take(i as int)) + i,
            total == 37 * i,
        decreases lines.len() - i,
    {
        let n = lines[i].unicode_len();
        assert(b.take(i + 1).drop_last() =~= b.take(i as int));
        total = total + n + 1;
        i += 1;
    }
    assert(b.take(5) =~= b);
    total
}

/// Width of the widest banner line, in characters.
pub fn banner_width() -> (r: usize)
    ensures
        forall|i: int| 0 <= i < banner_view().len() ==> banner_view()[i].len() <= r,
        exists|i: int| 0 <= i < banner_view().len() && banner_view()[i].len() == r,
{
    let lines = banner();
    proof {
        lemma_banner_shape();
    }
    let mut widest: usize = lines[0].unicode_len();
    let mut i: usize = 1;
    while i < lines.len()
        invariant
            1 <= i <= lines@.len(),
            lines@.len() == banner_view().len(),
            forall|k: int| 0 <= k < lines@.len() ==> (#[trigger] lines@[k])@ == banner_view()[k],
            forall|k: int| 0 <= k < i ==> banner_view()[k].len() <= widest,
            exists|k: int| 0 <= k < i && banner_view()[k].len() == widest,
        decreases lines.len() - i,
    {
        let n = lines[i].unicode_len();
        if n > widest {
            widest = n;
        }
        i += 1;
    }
    widest
}

proof fn lemma_project_lines_prefix(s: Seq<nat>, i: int)
    requires
        0 <= i <= s.len(),
    ensures
        project_lines(s.take(i)) <= project_lines(s),
    decreases s.len() - i,
{
    if i < s.len() {
        lemma_project_lines_prefix(s, i + 1);
        assert(s.take(i + 1).drop_last() =~= s.take(i));
    } else {
        assert(s.take(i) =~= s);
    }
}

proof fn lemma_sum_prefix(s: Seq<nat>, i: int)
    requires
        0 <= i <= s.len(),
    ensures
        sum(s.take(i)) <= sum(s),
    decreases s.len() - i,
{
    if i < s.len() {
        lemma_sum_prefix(s, i + 1);
        assert(s.take(i + 1).drop_last() =~= s.take(i));
    } else {
        assert(s.take(i) =~= s);
    }
}

/// Number of lines that the Projects section takes.
pub fn total_project_lines() -> (r: usize)
    ensures
        r == project_lines(category_sizes()),
        r == 84,
{
    let cats = project_categories();
    let ghost s = category_sizes();
    proof {
        lemma_project_totals();
    }
    let mut lines: usize = 0;
    let mut i: usize = 0;
    while i < cats.len()
        invariant
            i <= cats@.len(),
            sizes_of(cats@) == s,
            s == category_sizes(),
            project_lines(s) == 84,
            lines == project_lines(s.take(i as int)),
        decreases cats.len() - i,
    {
        proof {
            lemma_project_lines_prefix(s, i + 1);
            assert(s.take(i + 1).drop_last() =~= s.take(i as int));
            assert(s[i as int] == cats@[i as int].projects@.len());
        }
        let ghost before = lines;
        if i > 0 {
            lines += 1;
        }
        lines += 2;
        let n = cats[i].projects.len();
        let mut j: usize = 0;
        while j < n
            invariant
                j <= n,
                n == s[i as int],
                project_lines(s.take(i + 1)) <= 84,
                project_lines(s.take(i + 1)) == before + category_lines(n as nat) + if i > 0 {
                    1nat
                } else {
                    0nat
                },
                lines == before + (if i > 0 {
                    1nat
                } else {
                    0nat
                }) + 2 + if j == 0 {
                    0
                } else {
                    5 * j - 1
                },
            decreases n - j,
        {
            if j > 0 {
                lines += 1;
            }
            lines += 4;
            j += 1;
        }
        i += 1;
    }
    assert(s.take(s.len() as int) =~= s);
    lines
}

/// Number of projects over all categories.
pub fn total_project_count() -> (r: usize)
    ensures
        r == sum(category_sizes()),
        r == 15,
{
    let cats = project_categories();
    let ghost s = category_sizes();
    proof {
        lemma_project_totals();
    }
    let mut count: usize = 0;
    let mut i: usize = 0;
    while i < cats.len()
        invariant
            i <= cats@.len(),
            sizes_of(cats@) == s,
            s == category_sizes(),
            sum(s) == 15,
            count == sum(s.take(i as int)),
        decreases cats.len() - i,
    {
        proof {
            lemma_sum_prefix(s, i + 1);
            assert(s.take(i + 1).drop_last() =~= s.take(i as int));
            assert(s[i as int] == cats@[i as int].projects@.len());
        }
        count += cats[i].projects.len();
        i += 1;
    }
    assert(s.take(s.len() as int) =~= s);
    count
}

/// Category and position within it of the project at `idx` in the flat list
/// of all projects, or `None` when `idx` is past the last project.
pub fn get_project_by_flat_index(idx: usize) -> (r: Option<(usize, usize)>)
    ensures
        match flat_position(category_sizes(), idx as nat) {
            Some((c, p)) => r == Some((c as usize, p as usize)),
            None => r.is_none(),
        },
        r.is_some() <==> idx < sum(category_sizes()),
{
    let cats = project_categories();
    let ghost s = category_sizes();
    assert(s.len() == 5);
    proof {
        lemma_flat_position(s, idx as nat);
        assert(s.skip(0) =~= s);
    }
    let mut remaining: usize = idx;
    let mut i: usize = 0;
    while i < cats.len()
        invariant
            i <= cats@.len(),
            sizes_of(cats@) == s,
            s == category_sizes(),
            s.len() == cats@.len(),
            flat_position(s, idx as nat) == match flat_position(s.skip(i as int), remaining as nat) {
                Some((c, p)) => Some(((c + i) as nat, p)),
                None => None,
            },
        decreases cats.len() - i,
    {
        let n = cats[i].projects.len();
        assert(s.skip(i as int)[0] == n);
        if remaining < n {
            assert(flat_position(s.skip(i as int), remaining as nat) == Some((0nat, remaining as nat)));
            assert(flat_position(s, idx as nat) == Some((i as nat, remaining as nat)));
            proof {
                lemma_flat_position(s, idx as nat);
            }
            return Some((i, remaining));
        }
        assert(s.skip(i as int).drop_first() =~= s.skip(i + 1));
        remaining -= n;
        i += 1;
    }
    assert(s.skip(i as int) =~= Seq::<nat>::empty());
    None
}

proof fn lemma_flat_position(s: Seq<nat>, idx: nat)
    ensures
        flat_position(s, idx) is Some <==> idx < sum(s),
        flat_position(s, idx) matches Some((c, p)) ==> c < s.len() && p < s[c as int],
    decreases s.len(),
{
    if s.len() > 0 {
        lemma_flat_position(s.drop_first(), (idx - s[0]) as nat);
        lemma_sum_first(s);
    }
}

proof fn lemma_sum_first(s: Seq<nat>)
    requires
        s.len() > 0,
    ensures
        sum(s) == s[0] + sum(s.drop_first()),
    decreases s.len(),
{
    if s.len() > 1 {
        lemma_sum_first(s.drop_last());
        assert(s.drop_last().drop_first() =~= s.drop_first().drop_last());
    } else {
        assert(s.drop_last() =~= Seq::<nat>::empty());
        assert(s.drop_first() =~= Seq::<nat>::empty());
    }
}

// ── Tables ─────────────────────────────────────────────────────

/// The banner lines, top to bottom.
pub fn banner() -> (r: Vec<&'static str>)
    ensures
        r@.len() == banner_view().len(),
        forall|i: int| 0 <= i < r@.len() ==> (#[trigger] r@[i])@ == banner_view()[i],
{
    vec![
        r" __   __                _      _    ",
        r" \ \ / /_ _ _ __  _ __ (_) ___| | __",
        r"  \ V / _` | '_ \| '_ \| |/ __| |/ /",
        r"   | | (_| | | | | | | | | (__|   < ",
        r"   |_|\__,_|_| |_|_| |_|_|\___|_|\_\",
    ]
}

/// The lines of the About section.
pub fn about_lines() -> (r: Vec<&'static str>)
    ensures
        r@.len() == about_line_count(),
{
    vec![
        "Hi there \u{1F44B}, I'm Yannick!",
        "",
        "I'm a freelance dev based in France, obsessed with",
        "building things and learning new stuff.",
        "",
        "If an idea gets stuck in my head, I'll probably end",
        "up building it.",
        "",
        "My go-to stack is React Native, Expo, TypeScript,",
        "and Next.js. I spend most of my time in mobile and",
        "web development but I'm always curious about new",
        "tools and technologies.",
        "",
        "Currently shipping Doku \u{2013} a French learning app",
        "with graded stories and a cute cat mascot \u{1F431}",
        "",
        "I believe in learning by doing, always building",
        "something, and improving along the way.",
        "",
        "Open to freelance opportunities \u{2013} hello@yannickh.dev",
    ]
}

/// The project categories, in display order.
pub fn project_categories() -> (r: Vec<ProjectCategory>)
    ensures
        sizes_of(r@) == category_sizes(),
{
    let r = vec![
        ProjectCategory {
            name: "Language Learning",
            projects: vec![
                Project {
                    name: "Doku",
                    description: "iOS app for learning French through graded stories",
                    tech: "React Native, Expo, TypeScript",
                    url: "https://learnfrenchwithdoku.app",
                },
                Project {
                    name: "kanidachi",
                    description: "WaniKani client for Android and iOS",
                    tech: "React Native, Expo, TypeScript",
                    url: "https://github.com/YannickHerrero/kanidachi",
                },
                Project {
                    name: "yomu",
                    description: "iOS Japanese reading assistant with offline dictionary and SRS",
                    tech: "React Native, TypeScript",
                    url: "https://github.com/YannickHerrero/Yomu",
                },
            ],
        },
        ProjectCategory {
            name: "Media & Streaming",
            projects: vec![
                Project {
                    name: "mira",
                    description: "Cross-platform streaming app for movies and TV shows",
                    tech: "React Native, TypeScript",
                    url: "https://github.com/YannickHerrero/mira",
                },
                Project {
                    name: "miru",
                    description: "Terminal-native anime streaming CLI with Anilist + Real-Debrid",
                    tech: "Rust",
                    url: "https://github.com/YannickHerrero/miru",
                },
            ],
        },
        ProjectCategory {
            name: "Terminal Fun",
            projects: vec![
                Project {
                    name: "Solaris",
                    description: "Terminal idle game — harness the cosmos to generate energy",
                    tech: "Rust, ratatui",
                    url: "https://github.com/YannickHerrero/Solaris",
                },
                Project {
                    name: "Balatrust",
                    description: "A terminal-based Balatro clone",
                    tech: "Rust",
                    url: "https://github.com/YannickHerrero/Balatrust",
                },
                Project {
                    name: "kanitomo",
                    description: "Terminal mini-game collection with your pet crab companion",
                    tech: "Rust",
                    url: "https://github.com/YannickHerrero/kanitomo",
                },
            ],
        },
        ProjectCategory {
            name: "Tools & Productivity",
            projects: vec![
                Project {
                    name: "mtools",
                    description: "Unified toolkit for work management and developer utilities",
                    tech: "TypeScript",
                    url: "https://github.com/YannickHerrero/mtools",
                },
                Project {
                    name: "motionflow",
                    description: "Pipeline for generating short-form French educational videos",
                    tech: "TypeScript, AI",
                    url: "https://github.com/YannickHerrero/motionflow",
                },
                Project {
                    name: "life",
                    description: "Personal habit tracking for learning, nutrition, and sport",
                    tech: "TypeScript",
                    url: "https://github.com/YannickHerrero/life",
                },
            ],
        },
        ProjectCategory {
            name: "Web & Config",
            projects: vec![
                Project {
                    name: "yannickh.dev",
                    description: "Personal portfolio and project showcase",
                    tech: "Next.js, TypeScript, Vercel",
                    url: "https://yannickh.dev",
                },
                Project {
                    name: "ssh-yannickh.dev",
                    description: "This SSH portfolio you're looking at right now",
                    tech: "Rust, russh, ratatui, Fly.io",
                    url: "https://github.com/YannickHerrero/ssh-yannickh.dev",
                },
                Project {
                    name: "windot",
                    description: "Windows/WSL dotfiles with tiling WM and custom status bar",
                    tech: "JavaScript, PowerShell",
                    url: "https://github.com/YannickHerrero/windot",
                },
                Project {
                    name: "chocofi-config",
                    description: "ZMK firmware config for Corne/Chocofi split keyboard",
                    tech: "ZMK, Devicetree",
                    url: "https://github.com/YannickHerrero/chocofi-config",
                },
            ],
        },
    ];
    assert(sizes_of(r@) =~= category_sizes());
    r
}

/// The skill groups, in display order.
pub fn skill_groups() -> (r: Vec<SkillGroup>)
    ensures
        r@.len() == skill_group_count(),
{
    vec![
        SkillGroup { name: "Languages", items: vec!["Rust", "TypeScript", "JavaScript", "Python", "Lua", "CSS"] },
        SkillGroup { name: "Mobile", items: vec!["React Native", "Expo"] },
        SkillGroup { name: "Web", items: vec!["Next.js", "Astro", "Svelte", "React"] },
        SkillGroup { name: "Terminal / TUI", items: vec!["ratatui", "crossterm", "russh"] },
        SkillGroup { name: "Infrastructure", items: vec!["Docker", "Fly.io", "Vercel", "GitHub Actions"] },
        SkillGroup { name: "Other", items: vec!["ZMK firmware", "Base16 theming", "WSL / Hyprland"] },
    ]
}

/// The contact entries, in display order.
pub fn contact_entries() -> (r: Vec<ContactEntry>)
    ensures
        r@.len() == contact_entry_count(),
{
    vec![
        ContactEntry { label: "Web", value: "https://yannickh.dev" },
        ContactEntry { label: "GitHub", value: "https://github.com/YannickHerrero" },
        ContactEntry { label: "Email", value: "hello@yannickh.dev" },
        ContactEntry { label: "Doku", value: "https://learnfrenchwithdoku.app" },
    ]
}

/// Closing line of the Contact section.
pub fn contact_outro() -> &'static str {
    "Open to freelance opportunities — feel free to reach out."
}
} // verus!
