//! Where Java runtimes are looked for: the rules that turn the environment and
//! directory listings of a host into an ordered list of candidate executables.

use crate::platform::{java_binary, java_binary_name, join, joined, push_component, HostOs};
use crate::text::{
    after, before, chars_of, opt_text, same_chars, scan_until, slice_of, string_of, texts, trim,
    trimmed, until,
};
use vstd::prelude::*;

verus! {

/// The environment variables that the scan reads; `None` where one is not set.
#[derive(Debug, Clone)]
pub struct ScanEnvironment {
    pub home: Option<String>,
    pub java_home: Option<String>,
    pub program_files: Option<String>,
    pub program_files_x86: Option<String>,
    pub local_app_data: Option<String>,
}

/// One place to look at. With `enumerate`, every immediate child of `root`
/// contributes the path `suffix` below it; without, `root` itself is the
/// candidate.
#[derive(Debug, Clone)]
pub struct ScanRule {
    pub root: String,
    pub suffix: String,
    pub enumerate: bool,
    /// Whether the child named `current` is passed over.
    pub skip_current: bool,
}

/// A scan rule over plain sequences.
pub struct ScanRuleView {
    pub root: Seq<char>,
    pub suffix: Seq<char>,
    pub enumerate: bool,
    pub skip_current: bool,
}

impl View for ScanRule {
    type V = ScanRuleView;

    open spec fn view(&self) -> ScanRuleView {
        ScanRuleView {
            root: self.root@,
            suffix: self.suffix@,
            enumerate: self.enumerate,
            skip_current: self.skip_current,
        }
    }
}

/// The views of a sequence of rules.
pub open spec fn rules_view(rules: Seq<ScanRule>) -> Seq<ScanRuleView> {
    Seq::new(rules.len(), |i: int| rules[i]@)
}

/// A rule that takes `suffix` below every child of `root`.
pub open spec fn children_of(root: Seq<char>, suffix: Seq<char>) -> ScanRuleView {
    ScanRuleView { root, suffix, enumerate: true, skip_current: false }
}

/// A rule that takes the file `path` itself.
pub open spec fn file_at(path: Seq<char>) -> ScanRuleView {
    ScanRuleView { root: path, suffix: Seq::<char>::empty(), enumerate: false, skip_current: false }
}

/// The rule for the version directories of SDKMAN below a home directory:
/// every version but the link named `current`.
pub open spec fn sdkman_rule(home: Seq<char>) -> ScanRuleView {
    ScanRuleView {
        root: joined(home, ".sdkman/candidates/java"@, HostOs::Linux),
        suffix: "bin/java"@,
        enumerate: true,
        skip_current: true,
    }
}

/// The rule for the version directories of mise below a home directory.
pub open spec fn mise_rule(home: Seq<char>) -> ScanRuleView {
    children_of(joined(home, ".local/share/mise/installs/java"@, HostOs::Linux), "bin/java"@)
}

/// The rules for the version directories of SDKMAN and mise below a home
/// directory; none without a home directory.
pub open spec fn managed_rules(home: Option<Seq<char>>) -> Seq<ScanRuleView> {
    match home {
        Some(h) => seq![sdkman_rule(h), mise_rule(h)],
        None => Seq::<ScanRuleView>::empty(),
    }
}

/// The installation roots of Linux.
pub open spec fn linux_rules() -> Seq<ScanRuleView> {
    seq![
        children_of("/usr/lib/jvm"@, "bin/java"@),
        children_of("/usr/java"@, "bin/java"@),
        children_of("/opt/java"@, "bin/java"@),
        children_of("/opt/jdk"@, "bin/java"@),
        children_of("/opt/openjdk"@, "bin/java"@),
    ]
}

/// The installation roots of macOS and the Homebrew links.
pub open spec fn macos_rules() -> Seq<ScanRuleView> {
    seq![
        children_of("/Library/Java/JavaVirtualMachines"@, "Contents/Home/bin/java"@),
        children_of("/System/Library/Java/JavaVirtualMachines"@, "Contents/Home/bin/java"@),
        file_at("/usr/local/opt/openjdk/bin/java"@),
        file_at("/opt/homebrew/opt/openjdk/bin/java"@),
        children_of(
            "/opt/homebrew/Cellar/openjdk"@,
            "libexec/openjdk.jdk/Contents/Home/bin/java"@,
        ),
    ]
}

/// The vendor directories below one Windows base directory.
pub open spec fn windows_rules_below(base: Seq<char>) -> Seq<ScanRuleView> {
    seq![
        children_of(base + "\\Java"@, "bin\\java.exe"@),
        children_of(base + "\\Eclipse Adoptium"@, "bin\\java.exe"@),
        children_of(base + "\\AdoptOpenJDK"@, "bin\\java.exe"@),
        children_of(base + "\\Microsoft\\jdk"@, "bin\\java.exe"@),
        children_of(base + "\\Zulu"@, "bin\\java.exe"@),
        children_of(base + "\\Amazon Corretto"@, "bin\\java.exe"@),
        children_of(base + "\\BellSoft\\LibericaJDK"@, "bin\\java.exe"@),
        children_of(base + "\\Programs\\Eclipse Adoptium"@, "bin\\java.exe"@),
    ]
}

/// The value of a variable, or a fallback where it is not set.
pub open spec fn or_default(value: Option<String>, fallback: Seq<char>) -> Seq<char> {
    match value {
        Some(v) => v@,
        None => fallback,
    }
}

/// The installation roots of Windows: the vendor directories below the two
/// program directories and the local application data directory.
pub open spec fn windows_rules(env: ScanEnvironment) -> Seq<ScanRuleView> {
    windows_rules_below(or_default(env.program_files, "C:\\Program Files"@))
        + windows_rules_below(or_default(env.program_files_x86, "C:\\Program Files (x86)"@))
        + windows_rules_below(or_default(env.local_app_data, Seq::<char>::empty()))
}

/// Every place that the scan of a host looks at, in order: the roots of the
/// operating system, then the managed version directories.
pub open spec fn scan_rules_of(os: HostOs, env: ScanEnvironment) -> Seq<ScanRuleView> {
    match os {
        HostOs::Linux => linux_rules() + managed_rules(opt_text(env.home)),
        HostOs::MacOs => macos_rules() + managed_rules(opt_text(env.home)),
        HostOs::Windows => windows_rules(env),
        HostOs::Other => Seq::<ScanRuleView>::empty(),
    }
}

/// Adds a rule that enumerates the children of `root`.
fn push_children_rule(rules: &mut Vec<ScanRule>, root: String, suffix: &str, skip_current: bool)
    ensures
        rules_view(final(rules)@) == rules_view(old(rules)@).push(
            ScanRuleView { root: root@, suffix: suffix@, enumerate: true, skip_current },
        ),
{
    let ghost before_push = rules@;
    rules.push(ScanRule { root, suffix: suffix.to_owned(), enumerate: true, skip_current });
    assert(rules_view(rules@) =~= rules_view(before_push).push(
        ScanRuleView { root: root@, suffix: suffix@, enumerate: true, skip_current },
    ));
}

/// Adds a rule that takes one file.
fn push_file_rule(rules: &mut Vec<ScanRule>, path: &str)
    ensures
        rules_view(final(rules)@) == rules_view(old(rules)@).push(file_at(path@)),
{
    let ghost before_push = rules@;
    rules.push(
        ScanRule {
            root: path.to_owned(),
            suffix: String::new(),
            enumerate: false,
            skip_current: false,
        },
    );
    assert(rules_view(rules@) =~= rules_view(before_push).push(file_at(path@)));
}

/// Where SDKMAN keeps its Java versions below a home directory; the link to
/// the current version is passed over.
pub fn find_sdkman_java(home: &str) -> (rule: ScanRule)
    ensures
        rule@ == sdkman_rule(home@),
{
    ScanRule {
        root: join(home, ".sdkman/candidates/java", HostOs::Linux),
        suffix: "bin/java".to_owned(),
        enumerate: true,
        skip_current: true,
    }
}

/// Where mise keeps its Java versions below a home directory.
pub fn find_mise_java(home: &str) -> (rule: ScanRule)
    ensures
        rule@ == mise_rule(home@),
{
    ScanRule {
        root: join(home, ".local/share/mise/installs/java", HostOs::Linux),
        suffix: "bin/java".to_owned(),
        enumerate: true,
        skip_current: false,
    }
}

/// Adds the rules for the managed version directories below `home`.
fn push_managed_rules(rules: &mut Vec<ScanRule>, home: &Option<String>)
    ensures
        rules_view(final(rules)@) == rules_view(old(rules)@) + managed_rules(opt_text(*home)),
{
    let ghost start = rules_view(rules@);
    match home {
        Some(h) => {
            rules.push(find_sdkman_java(h.as_str()));
            rules.push(find_mise_java(h.as_str()));
            assert(rules_view(rules@) =~= start + managed_rules(opt_text(*home)));
        },
        None => {
            assert(rules_view(rules@) =~= start + managed_rules(opt_text(*home)));
        },
    }
}

/// Adds the vendor directories below one Windows base directory.
fn push_windows_rules(rules: &mut Vec<ScanRule>, base: &str)
    ensures
        rules_view(final(rules)@) == rules_view(old(rules)@) + windows_rules_below(base@),
{
    let ghost start = rules_view(rules@);
    push_children_rule(rules, base.to_owned().concat("\\Java"), "bin\\java.exe", false);
    push_children_rule(rules, base.to_owned().concat("\\Eclipse Adoptium"), "bin\\java.exe", false);
    push_children_rule(rules, base.to_owned().concat("\\AdoptOpenJDK"), "bin\\java.exe", false);
    push_children_rule(rules, base.to_owned().concat("\\Microsoft\\jdk"), "bin\\java.exe", false);
    push_children_rule(rules, base.to_owned().concat("\\Zulu"), "bin\\java.exe", false);
    push_children_rule(rules, base.to_owned().concat("\\Amazon Corretto"), "bin\\java.exe", false);
    push_children_rule(
        rules,
        base.to_owned().concat("\\BellSoft\\LibericaJDK"),
        "bin\\java.exe",
        false,
    );
    push_children_rule(
        rules,
        base.to_owned().concat("\\Programs\\Eclipse Adoptium"),
        "bin\\java.exe",
        false,
    );
    assert(rules_view(rules@) =~= start + windows_rules_below(base@));
}

/// The installation roots of Linux, with the managed version directories.
pub fn linux_candidates(home: &Option<String>) -> (rules: Vec<ScanRule>)
    ensures
        rules_view(rules@) == linux_rules() + managed_rules(opt_text(*home)),
{
    let mut rules: Vec<ScanRule> = Vec::new();
    assert(rules_view(rules@) =~= Seq::<ScanRuleView>::empty());
    push_children_rule(&mut rules, "/usr/lib/jvm".to_owned(), "bin/java", false);
    push_children_rule(&mut rules, "/usr/java".to_owned(), "bin/java", false);
    push_children_rule(&mut rules, "/opt/java".to_owned(), "bin/java", false);
    push_children_rule(&mut rules, "/opt/jdk".to_owned(), "bin/java", false);
    push_children_rule(&mut rules, "/opt/openjdk".to_owned(), "bin/java", false);
    assert(rules_view(rules@) =~= linux_rules());
    push_managed_rules(&mut rules, home);
    rules
}

/// The installation roots of macOS, the Homebrew links and the managed version
/// directories.
pub fn macos_candidates(home: &Option<String>) -> (rules: Vec<ScanRule>)
    ensures
        rules_view(rules@) == macos_rules() + managed_rules(opt_text(*home)),
{
    let mut rules: Vec<ScanRule> = Vec::new();
    assert(rules_view(rules@) =~= Seq::<ScanRuleView>::empty());
    push_children_rule(
        &mut rules,
        "/Library/Java/JavaVirtualMachines".to_owned(),
        "Contents/Home/bin/java",
        false,
    );
    push_children_rule(
        &mut rules,
        "/System/Library/Java/JavaVirtualMachines".to_owned(),
        "Contents/Home/bin/java",
        false,
    );
    push_file_rule(&mut rules, "/usr/local/opt/openjdk/bin/java");
    push_file_rule(&mut rules, "/opt/homebrew/opt/openjdk/bin/java");
    push_children_rule(
        &mut rules,
        "/opt/homebrew/Cellar/openjdk".to_owned(),
        "libexec/openjdk.jdk/Contents/Home/bin/java",
        false,
    );
    assert(rules_view(rules@) =~= macos_rules());
    push_managed_rules(&mut rules, home);
    rules
}

/// The value of an environment variable, or a fallback where it is not set.
fn value_or(value: &Option<String>, fallback: &str) -> (out: String)
    ensures
        out@ == or_default(*value, fallback@),
{
    match value {
        Some(v) => v.clone(),
        None => fallback.to_owned(),
    }
}

/// The installation roots of Windows.
pub fn windows_candidates(env: &ScanEnvironment) -> (rules: Vec<ScanRule>)
    ensures
        rules_view(rules@) == windows_rules(*env),
{
    let program_files = value_or(&env.program_files, "C:\\Program Files");
    let program_files_x86 = value_or(&env.program_files_x86, "C:\\Program Files (x86)");
    let local_app_data = value_or(&env.local_app_data, "");
    proof {
        reveal_strlit("");
        assert(""@ =~= Seq::<char>::empty());
    }
    let mut rules: Vec<ScanRule> = Vec::new();
    assert(rules_view(rules@) =~= Seq::<ScanRuleView>::empty());
    push_windows_rules(&mut rules, program_files.as_str());
    push_windows_rules(&mut rules, program_files_x86.as_str());
    push_windows_rules(&mut rules, local_app_data.as_str());
    assert(rules_view(rules@) =~= windows_rules(*env));
    rules
}

/// Every place that the scan of a host looks at, in order.
pub fn scan_rules(os: HostOs, env: &ScanEnvironment) -> (rules: Vec<ScanRule>)
    ensures
        rules_view(rules@) == scan_rules_of(os, *env),
{
    match os {
        HostOs::Linux => linux_candidates(&env.home),
        HostOs::MacOs => macos_candidates(&env.home),
        HostOs::Windows => windows_candidates(env),
        HostOs::Other => {
            let rules: Vec<ScanRule> = Vec::new();
            assert(rules_view(rules@) =~= Seq::<ScanRuleView>::empty());
            rules
        },
    }
}


/// What was read from the host for a scan.
#[derive(Debug, Clone)]
pub struct ScanFindings {
    /// The standard output of `which java` or `where java`; `None` where the
    /// command failed or ran out of time.
    pub which_output: Option<String>,
    /// For each rule of the scan, in order, the names of the immediate child
    /// directories of its root; empty where the root cannot be listed.
    pub listings: Vec<Vec<String>>,
}

/// The lines of the output of `which`, each without the white space around it,
/// the empty ones left out.
pub open spec fn which_lines(output: Seq<char>) -> Seq<Seq<char>>
    decreases output.len(),
{
    let line = trimmed(before(output, '\n'));
    let head = if line.len() > 0 {
        seq![line]
    } else {
        Seq::<Seq<char>>::empty()
    };
    if 0 <= until(output, '\n') < output.len() {
        head + which_lines(after(output, '\n'))
    } else {
        head
    }
}

/// The path that a rule takes below the child `name` of its root.
pub open spec fn child_candidate(rule: ScanRuleView, name: Seq<char>, os: HostOs) -> Seq<char> {
    joined(joined(rule.root, name, os), rule.suffix, os)
}

/// Whether a rule passes over the child `name`.
pub open spec fn skips(rule: ScanRuleView, name: Seq<char>) -> bool {
    rule.skip_current && name == "current"@
}

/// The candidates of one enumerating rule for the listed children, in the
/// order of the listing.
pub open spec fn listed_candidates(
    rule: ScanRuleView,
    children: Seq<Seq<char>>,
    os: HostOs,
) -> Seq<Seq<char>>
    decreases children.len(),
{
    if children.len() == 0 {
        Seq::<Seq<char>>::empty()
    } else {
        let rest = listed_candidates(rule, children.drop_last(), os);
        if skips(rule, children.last()) {
            rest
        } else {
            rest.push(child_candidate(rule, children.last(), os))
        }
    }
}

/// The candidates of one rule.
pub open spec fn rule_candidates(
    rule: ScanRuleView,
    children: Seq<Seq<char>>,
    os: HostOs,
) -> Seq<Seq<char>> {
    if rule.enumerate {
        listed_candidates(rule, children, os)
    } else {
        seq![rule.root]
    }
}

/// The listing that belongs to the rule at index `i`; empty where none was
/// handed in.
pub open spec fn listing_at(listings: Seq<Vec<String>>, i: int) -> Seq<Seq<char>> {
    if 0 <= i < listings.len() {
        texts(listings[i]@)
    } else {
        Seq::<Seq<char>>::empty()
    }
}

/// The candidates of the first `n` rules, rule by rule.
pub open spec fn rules_candidates(
    rules: Seq<ScanRuleView>,
    listings: Seq<Vec<String>>,
    os: HostOs,
    n: int,
) -> Seq<Seq<char>>
    decreases n,
{
    if n <= 0 {
        Seq::<Seq<char>>::empty()
    } else {
        rules_candidates(rules, listings, os, n - 1) + rule_candidates(
            rules[n - 1],
            listing_at(listings, n - 1),
            os,
        )
    }
}

/// The executable below a Java home directory.
pub open spec fn java_home_path(java_home: Seq<char>, os: HostOs) -> Seq<char> {
    joined(joined(java_home, "bin"@, os), java_binary(os), os)
}

/// The candidate that `JAVA_HOME` contributes.
pub open spec fn java_home_candidates(java_home: Option<Seq<char>>, os: HostOs) -> Seq<Seq<char>> {
    match java_home {
        Some(h) => seq![java_home_path(h, os)],
        None => Seq::<Seq<char>>::empty(),
    }
}

/// The ordered candidates of a scan: what `which` printed, then what the rules
/// of the host find in the listings, then the executable below `JAVA_HOME`.
/// Nothing is left out for occurring twice.
pub open spec fn scan_candidates(
    os: HostOs,
    env: ScanEnvironment,
    findings: ScanFindings,
) -> Seq<Seq<char>> {
    let rules = scan_rules_of(os, env);
    which_lines(or_default(findings.which_output, Seq::<char>::empty())) + rules_candidates(
        rules,
        findings.listings@,
        os,
        rules.len() as int,
    ) + java_home_candidates(opt_text(env.java_home), os)
}

/// Appends the string of `chars` to a list of paths.
fn push_path(out: &mut Vec<String>, chars: &Vec<char>)
    ensures
        texts(final(out)@) == texts(old(out)@).push(chars@),
{
    let ghost start = out@;
    out.push(string_of(chars));
    assert(texts(out@) =~= texts(start).push(chars@));
}

/// Appends the candidates that the output of `which` names.
fn push_which_lines(out: &mut Vec<String>, output: &str)
    ensures
        texts(final(out)@) == texts(old(out)@) + which_lines(output@),
{
    let text = chars_of(output);
    let n = text.len();
    let ghost start = texts(out@);
    let mut from: usize = 0;
    assert(text@.subrange(0, n as int) =~= text@);
    loop
        invariant
            from <= n,
            n == text.len(),
            text@ == output@,
            start == texts(old(out)@),
            start + which_lines(text@) == texts(out@) + which_lines(
                text@.subrange(from as int, n as int),
            ),
        decreases n - from,
    {
        let ghost rest = text@.subrange(from as int, n as int);
        let ghost so_far = texts(out@);
        let end = scan_until(&text, from, '\n');
        let raw = slice_of(&text, from, end);
        assert(raw@ =~= before(rest, '\n'));
        let line = trim(&raw);
        if line.len() > 0 {
            push_path(out, &line);
        }
        if end >= n {
            assert(texts(out@) =~= so_far + which_lines(rest));
            assert(start + which_lines(text@) == texts(out@));
            return ;
        }
        proof {
            let next = text@.subrange(end + 1, n as int);
            assert(after(rest, '\n') =~= next);
            let head = if line@.len() > 0 {
                seq![line@]
            } else {
                Seq::<Seq<char>>::empty()
            };
            assert(which_lines(rest) == head + which_lines(next));
            assert(texts(out@) =~= so_far + head);
            assert(so_far + (head + which_lines(next)) =~= (so_far + head) + which_lines(next));
        }
        from = end + 1;
    }
}

/// The candidates that the output of `which java` or `where java` names: its
/// lines, trimmed, without the empty ones.
pub fn path_candidates(which_output: &str) -> (out: Vec<String>)
    ensures
        texts(out@) == which_lines(which_output@),
{
    let mut out: Vec<String> = Vec::new();
    assert(texts(out@) =~= Seq::<Seq<char>>::empty());
    push_which_lines(&mut out, which_output);
    assert(Seq::<Seq<char>>::empty() + which_lines(which_output@) =~= which_lines(which_output@));
    out
}

/// Appends the candidates of one rule.
fn push_rule_candidates(out: &mut Vec<String>, rule: &ScanRule, children: &Vec<String>, os: HostOs)
    ensures
        texts(final(out)@) == texts(old(out)@) + rule_candidates(rule@, texts(children@), os),
{
    let ghost start = texts(out@);
    if !rule.enumerate {
        let root = chars_of(rule.root.as_str());
        push_path(out, &root);
        assert(texts(out@) =~= start + seq![rule.root@]);
        return ;
    }
    let current = chars_of("current");
    let ghost names = texts(children@);
    let mut i: usize = 0;
    assert(names.subrange(0, 0) =~= Seq::<Seq<char>>::empty());
    assert(start + Seq::<Seq<char>>::empty() =~= start);
    while i < children.len()
        invariant
            i <= children.len(),
            names == texts(children@),
            current@ == "current"@,
            rule.enumerate,
            texts(out@) == start + listed_candidates(rule@, names.subrange(0, i as int), os),
        decreases children.len() - i,
    {
        let name = chars_of(children[i].as_str());
        let ghost so_far = listed_candidates(rule@, names.subrange(0, i as int), os);
        proof {
            let upto = names.subrange(0, i + 1);
            assert(upto.drop_last() =~= names.subrange(0, i as int));
            assert(upto.last() == name@);
        }
        if !(rule.skip_current && same_chars(&name, &current)) {
            let mut path = chars_of(rule.root.as_str());
            push_component(&mut path, children[i].as_str(), os);
            push_component(&mut path, rule.suffix.as_str(), os);
            push_path(out, &path);
            assert(texts(out@) =~= start + so_far.push(child_candidate(rule@, name@, os)));
        }
        i = i + 1;
    }
    assert(names.subrange(0, children.len() as int) =~= names);
}

/// The executable that `JAVA_HOME` points at: `bin/java` below it, `java.exe`
/// on Windows.
pub fn java_home_candidate(java_home: &str, os: HostOs) -> (out: String)
    ensures
        out@ == java_home_path(java_home@, os),
{
    let mut path = chars_of(java_home);
    push_component(&mut path, "bin", os);
    push_component(&mut path, java_binary_name(os), os);
    string_of(&path)
}

/// The ordered list of candidate executables of a scan. Existence is not
/// tested and nothing is removed for occurring twice.
pub fn get_java_candidates(
    os: HostOs,
    env: &ScanEnvironment,
    findings: &ScanFindings,
) -> (out: Vec<String>)
    ensures
        texts(out@) == scan_candidates(os, *env, *findings),
{
    let mut out: Vec<String> = Vec::new();
    assert(texts(out@) =~= Seq::<Seq<char>>::empty());
    match &findings.which_output {
        Some(output) => {
            push_which_lines(&mut out, output.as_str());
        },
        None => {
            assert(which_lines(Seq::<char>::empty()) =~= Seq::<Seq<char>>::empty()) by {
                assert(before(Seq::<char>::empty(), '\n') =~= Seq::<char>::empty());
                assert(trimmed(Seq::<char>::empty()) =~= Seq::<char>::empty());
            }
        },
    }
    let ghost lines = which_lines(or_default(findings.which_output, Seq::<char>::empty()));
    assert(texts(out@) =~= lines);
    let rules = scan_rules(os, env);
    let ghost views = scan_rules_of(os, *env);
    let empty: Vec<String> = Vec::new();
    assert(texts(empty@) =~= Seq::<Seq<char>>::empty());
    let mut i: usize = 0;
    assert(lines + Seq::<Seq<char>>::empty() =~= lines);
    while i < rules.len()
        invariant
            i <= rules.len(),
            rules_view(rules@) == views,
            texts(empty@) == Seq::<Seq<char>>::empty(),
            texts(out@) == lines + rules_candidates(views, findings.listings@, os, i as int),
        decreases rules.len() - i,
    {
        let ghost so_far = rules_candidates(views, findings.listings@, os, i as int);
        let ghost listing = listing_at(findings.listings@, i as int);
        let ghost step = rule_candidates(views[i as int], listing, os);
        assert(views[i as int] == rules@[i as int]@);
        if i < findings.listings.len() {
            push_rule_candidates(&mut out, &rules[i], &findings.listings[i], os);
        } else {
            push_rule_candidates(&mut out, &rules[i], &empty, os);
        }
        assert(texts(out@) =~= lines + (so_far + step));
        i = i + 1;
    }
    assert(rules.len() == views.len());
    let ghost scanned = texts(out@);
    match &env.java_home {
        Some(home) => {
            let path = java_home_candidate(home.as_str(), os);
            let chars = chars_of(path.as_str());
            push_path(&mut out, &chars);
            assert(texts(out@) =~= scanned + java_home_candidates(opt_text(env.java_home), os));
        },
        None => {
            assert(texts(out@) =~= scanned + java_home_candidates(opt_text(env.java_home), os));
        },
    }
    out
}

/// How the child process that runs `which` was found at a poll.
#[derive(Debug, Clone, Copy, PartialEq, Eq, Structural)]
pub enum WhichStatus {
    /// The process has not ended.
    Running,
    /// The process ended; `success` tells whether its exit status is zero.
    Exited { success: bool },
    /// The state of the process could not be read.
    Unknown,
}

/// What to do with the child process that runs `which`.
#[derive(Debug, Clone, Copy, PartialEq, Eq, Structural)]
pub enum WhichStep {
    /// Wait for the given number of milliseconds, then poll again.
    Sleep(u64),
    /// Read the standard output: it is the result.
    ReadOutput,
    /// Reap the process; there is no result.
    Reap,
    /// Kill and reap the process; there is no result.
    Kill,
}

/// The time that `which` is given, in milliseconds.
pub const WHICH_TIMEOUT_MS: u64 = 2000;

/// The pause between two polls, in milliseconds.
pub const WHICH_POLL_MS: u64 = 50;

/// Whether the time given to `which` has run out after `elapsed_ms`
/// milliseconds.
pub fn which_deadline_passed(elapsed_ms: u64) -> (passed: bool)
    ensures
        passed == (elapsed_ms > WHICH_TIMEOUT_MS),
{
    elapsed_ms > WHICH_TIMEOUT_MS
}

/// The step that follows a poll of the child process.
pub open spec fn which_step_for(status: WhichStatus) -> WhichStep {
    match status {
        WhichStatus::Running => WhichStep::Sleep(WHICH_POLL_MS),
        WhichStatus::Exited { success } => if success {
            WhichStep::ReadOutput
        } else {
            WhichStep::Reap
        },
        WhichStatus::Unknown => WhichStep::Kill,
    }
}

/// Decides what to do after a poll of the child process that runs `which`,
/// while its time has not run out.
pub fn which_poll_step(status: WhichStatus) -> (step: WhichStep)
    ensures
        step == which_step_for(status),
{
    match status {
        WhichStatus::Running => WhichStep::Sleep(WHICH_POLL_MS),
        WhichStatus::Exited { success } => if success {
            WhichStep::ReadOutput
        } else {
            WhichStep::Reap
        },
        WhichStatus::Unknown => WhichStep::Kill,
    }
}


/// The executable below `bin` in a directory.
pub open spec fn plain_executable(dir: Seq<char>, os: HostOs) -> Seq<char> {
    joined(joined(dir, "bin"@, os), java_binary(os), os)
}

/// The executable of a macOS bundle in a directory.
pub open spec fn bundle_executable(dir: Seq<char>, os: HostOs) -> Seq<char> {
    joined(
        joined(joined(joined(dir, "Contents"@, os), "Home"@, os), "bin"@, os),
        java_binary(os),
        os,
    )
}

/// The places of an executable in one directory: below `bin`, and on macOS
/// in the bundle as well.
pub open spec fn executables_in(dir: Seq<char>, os: HostOs) -> Seq<Seq<char>> {
    if os == HostOs::MacOs {
        seq![plain_executable(dir, os), bundle_executable(dir, os)]
    } else {
        seq![plain_executable(dir, os)]
    }
}

/// The places of an executable in the child directories of `dir`, in the
/// order of the listing.
pub open spec fn executables_below(dir: Seq<char>, children: Seq<Seq<char>>, os: HostOs) -> Seq<
    Seq<char>,
>
    decreases children.len(),
{
    if children.len() == 0 {
        Seq::<Seq<char>>::empty()
    } else {
        executables_below(dir, children.drop_last(), os) + executables_in(
            joined(dir, children.last(), os),
            os,
        )
    }
}

/// Appends the places of an executable in one directory.
fn push_executables_in(out: &mut Vec<String>, dir: &Vec<char>, os: HostOs)
    ensures
        texts(final(out)@) == texts(old(out)@) + executables_in(dir@, os),
{
    let ghost start = texts(out@);
    let mut plain = slice_of(dir, 0, dir.len());
    assert(plain@ =~= dir@);
    push_component(&mut plain, "bin", os);
    push_component(&mut plain, java_binary_name(os), os);
    push_path(out, &plain);
    match os {
        HostOs::MacOs => {
            let mut bundle = slice_of(dir, 0, dir.len());
            assert(bundle@ =~= dir@);
            push_component(&mut bundle, "Contents", os);
            push_component(&mut bundle, "Home", os);
            push_component(&mut bundle, "bin", os);
            push_component(&mut bundle, java_binary_name(os), os);
            push_path(out, &bundle);
            assert(texts(out@) =~= start + executables_in(dir@, os));
        },
        _ => {
            assert(texts(out@) =~= start + executables_in(dir@, os));
        },
    }
}

/// The places at which the executable of a managed installation may stand, in
/// the order in which they are tried: in the directory itself, then in each
/// of its child directories. The first that exists is the executable.
pub fn find_java_executable(dir: &str, children: &Vec<String>, os: HostOs) -> (out: Vec<String>)
    ensures
        texts(out@) == executables_in(dir@, os) + executables_below(dir@, texts(children@), os),
{
    let mut out: Vec<String> = Vec::new();
    assert(texts(out@) =~= Seq::<Seq<char>>::empty());
    let base = chars_of(dir);
    push_executables_in(&mut out, &base, os);
    let ghost head = executables_in(dir@, os);
    assert(texts(out@) =~= head);
    let ghost names = texts(children@);
    let mut i: usize = 0;
    assert(names.subrange(0, 0) =~= Seq::<Seq<char>>::empty());
    assert(head + Seq::<Seq<char>>::empty() =~= head);
    while i < children.len()
        invariant
            i <= children.len(),
            names == texts(children@),
            base@ == dir@,
            texts(out@) == head + executables_below(dir@, names.subrange(0, i as int), os),
        decreases children.len() - i,
    {
        let ghost so_far = executables_below(dir@, names.subrange(0, i as int), os);
        let mut child = slice_of(&base, 0, base.len());
        assert(child@ =~= base@);
        push_component(&mut child, children[i].as_str(), os);
        proof {
            let upto = names.subrange(0, i + 1);
            assert(upto.drop_last() =~= names.subrange(0, i as int));
            assert(upto.last() == children@[i as int]@);
        }
        push_executables_in(&mut out, &child, os);
        assert(texts(out@) =~= head + (so_far + executables_in(child@, os)));
        i = i + 1;
    }
    assert(names.subrange(0, children.len() as int) =~= names);
    out
}

} // verus!
