use vstd::prelude::*;

use crate::text::{
    chars_of, concat2, is_whitespace, same_text, spec_is_whitespace, string_of, trim_start,
    trim_start_char, trim_start_matching,
};

verus! {

// ── Versions ──────────────────────────────────────────────────────────────────

#[verifier::external_type_specification]
#[verifier::external_body]
pub struct ExVersion(semver::Version);

#[verifier::external_type_specification]
#[verifier::external_body]
pub struct ExSemverError(semver::Error);

/// Whether `semver::Version::parse` accepts the text.
pub uninterp spec fn spec_semver_parses(text: Seq<char>) -> bool;

/// Whether the version written `a` is greater than the version written `b` in
/// `semver::Version`'s order (both texts parse).
pub uninterp spec fn spec_semver_newer(a: Seq<char>, b: Seq<char>) -> bool;

/// A version parsed by `semver`, together with the text it was parsed from. Its
/// fields are private and only `parse_version` builds one, so the version is always
/// the one that its text parses to.
pub struct ParsedVersion {
    text: String,
    version: semver::Version,
}

impl View for ParsedVersion {
    type V = Seq<char>;

    /// The text the version was parsed from.
    closed spec fn view(&self) -> Seq<char> {
        self.text@
    }
}

/// `semver::Version::parse`. Trusted: it succeeds exactly when the named property
/// holds of the text, and the version keeps the text it came from. Nothing is
/// stated of the error.
#[verifier::external_body]
fn parse_version(text: &str) -> (r: Result<ParsedVersion, semver::Error>)
    ensures
        r is Ok <==> spec_semver_parses(text@),
        r matches Ok(v) ==> v@ == text@,
{
    match semver::Version::parse(text) {
        Ok(version) => Ok(ParsedVersion { text: text.to_string(), version }),
        Err(e) => Err(e),
    }
}

/// `>` on `semver::Version`. Trusted: the answer is the named order of the two
/// versions, which depends only on the texts they were parsed from.
#[verifier::external_body]
fn version_newer(a: &ParsedVersion, b: &ParsedVersion) -> (r: bool)
    ensures
        r == spec_semver_newer(a@, b@),
{
    a.version > b.version
}

/// The release tag without its leading `v`s.
pub open spec fn spec_remote_version(tag_name: Seq<char>) -> Seq<char> {
    trim_start_char(tag_name, 'v')
}

/// The answer of an update check, from the release's version text and whether it
/// parses, whether the running version parses, and whether the release's version
/// is the greater.
pub open spec fn spec_update_decision(
    remote: Seq<char>,
    remote_parses: bool,
    current_parses: bool,
    remote_newer: bool,
) -> Result<Option<Seq<char>>, Seq<char>> {
    if !remote_parses {
        Err("Parsing remote version '"@ + remote + "'"@)
    } else if !current_parses {
        Err("Parsing current version"@)
    } else if remote_newer {
        Ok(Some(remote))
    } else {
        Ok(None)
    }
}

/// Compares the latest release's tag with the running version: `Some` with the
/// release's version when it is newer, `None` when the running one is current.
pub open spec fn spec_check_for_update(tag_name: Seq<char>, current: Seq<char>) -> Result<Option<Seq<char>>, Seq<char>> {
    let remote = spec_remote_version(tag_name);
    spec_update_decision(
        remote,
        spec_semver_parses(remote),
        spec_semver_parses(current),
        spec_semver_newer(remote, current),
    )
}

pub open spec fn update_result_view(r: Result<Option<String>, String>) -> Result<Option<Seq<char>>, Seq<char>> {
    match r {
        Ok(Some(v)) => Ok(Some(v@)),
        Ok(None) => Ok(None),
        Err(e) => Err(e@),
    }
}

/// The answer of an update check (see `spec_update_decision`); `remote_newer` is
/// looked at only when both versions parse.
pub fn update_decision(
    remote: String,
    remote_parses: bool,
    current_parses: bool,
    remote_newer: bool,
) -> (r: Result<Option<String>, String>)
    ensures
        update_result_view(r) == spec_update_decision(remote@, remote_parses, current_parses, remote_newer),
{
    if !remote_parses {
        let mut msg = String::from_str("Parsing remote version '");
        msg.append(remote.as_str());
        msg.append("'");
        Err(msg)
    } else if !current_parses {
        Err(String::from_str("Parsing current version"))
    } else if remote_newer {
        Ok(Some(remote))
    } else {
        Ok(None)
    }
}

/// Whether the release tagged `tag_name` is newer than the `current` version.
pub fn check_for_update(tag_name: &str, current: &str) -> (r: Result<Option<String>, String>)
    ensures
        update_result_view(r) == spec_check_for_update(tag_name@, current@),
{
    let remote_str = trim_start_matching(tag_name, 'v');
    let remote = parse_version(remote_str.as_str());
    let cur = match remote {
        Ok(_) => parse_version(current),
        Err(_) => {
            return update_decision(remote_str, false, false, false);
        },
    };
    match (remote, cur) {
        (Ok(rv), Ok(cv)) => {
            let newer = version_newer(&rv, &cv);
            update_decision(remote_str, true, true, newer)
        },
        _ => update_decision(remote_str, true, false, false),
    }
}

// ── Release assets ────────────────────────────────────────────────────────────

/// The file name suffix of the portable binary for an operating system and an
/// architecture (as `std::env::consts` names them).
pub open spec fn spec_asset_suffix(os: Seq<char>, arch: Seq<char>) -> Seq<char> {
    if os == "windows"@ && arch == "x86_64"@ {
        "windows-x64.exe"@
    } else if os == "linux"@ && arch == "x86_64"@ {
        "linux-x64"@
    } else if os == "macos"@ {
        "macos-arm64"@
    } else {
        "linux-x64"@
    }
}

/// The release asset suffix for this platform; unsupported platforms get the
/// Linux binary's.
pub fn asset_suffix(os: &str, arch: &str) -> (r: &'static str)
    ensures
        r@ == spec_asset_suffix(os@, arch@),
{
    let os_s = String::from_str(os);
    let arch_s = String::from_str(arch);
    if same_text(&os_s, "windows") && same_text(&arch_s, "x86_64") {
        "windows-x64.exe"
    } else if same_text(&os_s, "linux") && same_text(&arch_s, "x86_64") {
        "linux-x64"
    } else if same_text(&os_s, "macos") {
        "macos-arm64"
    } else {
        "linux-x64"
    }
}

pub open spec fn spec_ends_with(s: Seq<char>, suffix: Seq<char>) -> bool {
    suffix.len() <= s.len() && s.subrange(s.len() - suffix.len(), s.len() as int) == suffix
}

/// `str::ends_with`.
pub fn ends_with(s: &str, suffix: &str) -> (r: bool)
    ensures
        r == spec_ends_with(s@, suffix@),
{
    let a = chars_of(s);
    let b = chars_of(suffix);
    if b.len() > a.len() {
        return false;
    }
    let off = a.len() - b.len();
    let mut i: usize = 0;
    while i < b.len()
        invariant
            i <= b.len(),
            off + b.len() == a.len(),
            a@ == s@,
            b@ == suffix@,
            forall|k: int| 0 <= k < i ==> a@[off + k] == b@[k],
        decreases b.len() - i,
    {
        if a[off + i] != b[i] {
            assert(a@.subrange(off as int, a@.len() as int)[i as int] == a@[off + i]);
            assert(a@.subrange(off as int, a@.len() as int) != b@);
            return false;
        }
        i = i + 1;
    }
    assert(a@.subrange(off as int, a@.len() as int) =~= b@);
    true
}

/// The index of the first name that ends with `suffix`, if any.
pub open spec fn first_ending_with(names: Seq<Seq<char>>, suffix: Seq<char>) -> Option<usize>
    decreases names.len(),
{
    if names.len() == 0 {
        None
    } else if spec_ends_with(names.last(), suffix) && first_ending_with(names.drop_last(), suffix) is None {
        Some((names.len() - 1) as usize)
    } else {
        first_ending_with(names.drop_last(), suffix)
    }
}

/// The index of the first name equal to `name`, if any.
pub open spec fn first_named(names: Seq<Seq<char>>, name: Seq<char>) -> Option<usize>
    decreases names.len(),
{
    if names.len() == 0 {
        None
    } else if names.last() == name && first_named(names.drop_last(), name) is None {
        Some((names.len() - 1) as usize)
    } else {
        first_named(names.drop_last(), name)
    }
}

/// What an update downloads: the binary for the platform, and the checksums file
/// if the release has one.
pub open spec fn spec_plan_update(names: Seq<Seq<char>>, suffix: Seq<char>) -> Result<(usize, Option<usize>), Seq<char>> {
    match first_ending_with(names, suffix) {
        None => Err("No release asset found for platform suffix '"@ + suffix + "'"@),
        Some(b) => Ok((b, first_named(names, "checksums.txt"@))),
    }
}

/// Picks the release assets to download among the asset names: the first whose
/// name ends with `suffix`, and the first named `checksums.txt`.
pub fn plan_update(names: &Vec<String>, suffix: &str) -> (r: Result<(usize, Option<usize>), String>)
    ensures
        match (r, spec_plan_update(names.deep_view(), suffix@)) {
            (Ok(p), Ok(q)) => p == q,
            (Err(e), Err(f)) => e@ == f,
            _ => false,
        },
{
    let ghost dv = names.deep_view();
    let mut binary: Option<usize> = None;
    let mut sums: Option<usize> = None;
    let mut i: usize = 0;
    while i < names.len()
        invariant
            i <= names.len(),
            dv == names.deep_view(),
            binary == first_ending_with(dv.take(i as int), suffix@),
            sums == first_named(dv.take(i as int), "checksums.txt"@),
        decreases names.len() - i,
    {
        assert(dv[i as int] == names@[i as int]@);
        let bin_here = ends_with(names[i].as_str(), suffix);
        let sums_here = same_text(&names[i], "checksums.txt");
        assert(dv.take(i + 1).drop_last() == dv.take(i as int));
        assert(dv.take(i + 1).last() == dv[i as int]);
        if binary.is_none() && bin_here {
            binary = Some(i);
        }
        if sums.is_none() && sums_here {
            sums = Some(i);
        }
        i = i + 1;
    }
    assert(dv.take(names.len() as int) == dv);
    match binary {
        None => {
            let mut msg = String::from_str("No release asset found for platform suffix '");
            msg.append(suffix);
            msg.append("'");
            Err(msg)
        },
        Some(b) => Ok((b, sums)),
    }
}

// ── The checksums file ────────────────────────────────────────────────────────

/// The index of the first line feed in `s`, or its length when there is none.
pub open spec fn newline_at(s: Seq<char>) -> int
    decreases s.len(),
{
    if s.len() == 0 {
        0
    } else if s[0] == '\n' {
        0
    } else {
        1 + newline_at(s.drop_first())
    }
}

proof fn lemma_newline_at_bounds(s: Seq<char>)
    ensures
        0 <= newline_at(s) <= s.len(),
        newline_at(s) < s.len() ==> s[newline_at(s)] == '\n',
        forall|k: int| 0 <= k < newline_at(s) ==> s[k] != '\n',
    decreases s.len(),
{
    if s.len() > 0 && s[0] != '\n' {
        let t = s.drop_first();
        lemma_newline_at_bounds(t);
        assert forall|k: int| 0 <= k < newline_at(s) implies s[k] != '\n' by {
            if k > 0 {
                assert(s[k] == t[k - 1]);
            }
        }
    }
}

proof fn lemma_newline_at_is(s: Seq<char>, k: int)
    requires
        0 <= k <= s.len(),
        forall|j: int| 0 <= j < k ==> s[j] != '\n',
        k == s.len() || s[k] == '\n',
    ensures
        newline_at(s) == k,
    decreases k,
{
    if k > 0 {
        let t = s.drop_first();
        assert forall|j: int| 0 <= j < k - 1 implies t[j] != '\n' by {
            assert(t[j] == s[j + 1]);
        }
        lemma_newline_at_is(t, k - 1);
    }
}

/// A line without the carriage return that ends it, if any.
pub open spec fn strip_cr(t: Seq<char>) -> Seq<char> {
    if t.len() > 0 && t.last() == '\r' {
        t.drop_last()
    } else {
        t
    }
}

/// The lines of a text, as `str::lines` yields them: split at each line feed, a
/// carriage return before it removed, no empty line after a final line feed.
pub open spec fn spec_lines(s: Seq<char>) -> Seq<Seq<char>>
    decreases s.len(),
{
    if s.len() == 0 {
        Seq::empty()
    } else {
        let k = newline_at(s);
        if 0 <= k < s.len() {
            seq![strip_cr(s.take(k))] + spec_lines(s.skip(k + 1))
        } else {
            seq![s]
        }
    }
}

/// Whether `pat` occurs in `s`, as `str::contains` decides for a string pattern.
pub open spec fn spec_contains(s: Seq<char>, pat: Seq<char>) -> bool {
    exists|i: int| 0 <= i <= s.len() - pat.len() && #[trigger] s.subrange(i, i + pat.len()) == pat
}

/// The first line that contains `pat`, if any.
pub open spec fn first_line_containing(lines: Seq<Seq<char>>, pat: Seq<char>) -> Option<Seq<char>>
    decreases lines.len(),
{
    if lines.len() == 0 {
        None
    } else if spec_contains(lines[0], pat) {
        Some(lines[0])
    } else {
        first_line_containing(lines.drop_first(), pat)
    }
}

/// The index of the first whitespace character in `t`, or its length.
pub open spec fn word_end(t: Seq<char>) -> int
    decreases t.len(),
{
    if t.len() == 0 || spec_is_whitespace(t[0]) {
        0
    } else {
        1 + word_end(t.drop_first())
    }
}

/// The first word of a line, as `split_whitespace().next()` yields it.
pub open spec fn first_word(line: Seq<char>) -> Option<Seq<char>> {
    let t = trim_start(line);
    if t.len() == 0 {
        None
    } else {
        Some(t.take(word_end(t)))
    }
}

/// The text `str::to_lowercase` gives.
pub uninterp spec fn spec_to_lowercase(s: Seq<char>) -> Seq<char>;

/// `str::to_lowercase`. Trusted: the result is the named lower-case mapping of the
/// text and depends on it alone.
#[verifier::external_body]
fn to_lowercase(s: &str) -> (r: String)
    ensures
        r@ == spec_to_lowercase(s@),
{
    s.to_lowercase()
}

/// The checksum that a `sha256sum`-style file gives for `asset_name`: the first
/// word of the first line that mentions the name, in lower case.
pub open spec fn spec_expected_checksum(text: Seq<char>, asset_name: Seq<char>) -> Option<Seq<char>> {
    match first_line_containing(spec_lines(text), asset_name) {
        Some(line) => match first_word(line) {
            Some(w) => Some(spec_to_lowercase(w)),
            None => None,
        },
        None => None,
    }
}

fn contains_at(s: &Vec<char>, from: usize, to: usize, pat: &Vec<char>) -> (r: bool)
    requires
        from <= to <= s.len(),
    ensures
        r == spec_contains(s@.subrange(from as int, to as int), pat@),
{
    let ghost line = s@.subrange(from as int, to as int);
    if pat.len() > to - from {
        return false;
    }
    let last = to - from - pat.len();
    let mut i: usize = 0;
    loop
        invariant
            from <= to <= s.len(),
            line == s@.subrange(from as int, to as int),
            last + pat.len() == to - from,
            i <= last,
            forall|j: int| 0 <= j < i ==> #[trigger] line.subrange(j, j + pat.len()) != pat@,
        decreases last - i,
    {
        let mut k: usize = 0;
        let mut same = true;
        while k < pat.len()
            invariant
                from <= to <= s.len(),
                line == s@.subrange(from as int, to as int),
                i <= last,
                last + pat.len() == to - from,
                k <= pat.len(),
                same ==> forall|q: int| 0 <= q < k ==> line[i + q] == pat@[q],
                !same ==> line.subrange(i as int, i + pat.len()) != pat@,
            decreases pat.len() - k,
        {
            if s[from + i + k] != pat[k] {
                assert(line.subrange(i as int, i + pat.len())[k as int] == line[i + k]);
                same = false;
            }
            k = k + 1;
        }
        if same {
            assert(line.subrange(i as int, i + pat.len()) =~= pat@);
            return true;
        }
        if i == last {
            assert forall|j: int| 0 <= j <= line.len() - pat.len() implies #[trigger] line.subrange(j, j + pat.len()) != pat@ by {
                assert(j <= i);
            }
            return false;
        }
        i = i + 1;
    }
}

proof fn lemma_word_end_is(t: Seq<char>, k: int)
    requires
        0 <= k <= t.len(),
        forall|j: int| 0 <= j < k ==> !spec_is_whitespace(#[trigger] t[j]),
        k == t.len() || spec_is_whitespace(t[k]),
    ensures
        word_end(t) == k,
    decreases k,
{
    if k > 0 {
        let u = t.drop_first();
        assert(!spec_is_whitespace(t[0]));
        assert forall|j: int| 0 <= j < k - 1 implies !spec_is_whitespace(#[trigger] u[j]) by {
            assert(u[j] == t[j + 1]);
        }
        lemma_word_end_is(u, k - 1);
    }
}

fn first_word_of(s: &Vec<char>, from: usize, to: usize) -> (r: Option<String>)
    requires
        from <= to <= s.len(),
    ensures
        match (r, first_word(s@.subrange(from as int, to as int))) {
            (Some(w), Some(v)) => w@ == v,
            (None, None) => true,
            _ => false,
        },
{
    let ghost line = s@.subrange(from as int, to as int);
    let mut i = from;
    while i < to && is_whitespace(s[i])
        invariant
            from <= i <= to <= s.len(),
            forall|k: int| from <= k < i ==> spec_is_whitespace(#[trigger] s@[k]),
        decreases to - i,
    {
        i = i + 1;
    }
    proof {
        assert forall|k: int| 0 <= k < i - from implies spec_is_whitespace(#[trigger] line[k]) by {
            assert(line[k] == s@[from + k]);
        }
        if i < to {
            assert(line[i - from] == s@[i as int]);
        }
        crate::text::lemma_trim_start_skip(line, i - from);
        assert(line.subrange(i - from, line.len() as int) =~= s@.subrange(i as int, to as int));
    }
    if i == to {
        return None;
    }
    let mut j = i;
    while j < to && !is_whitespace(s[j])
        invariant
            from <= i <= j <= to <= s.len(),
            forall|k: int| i <= k < j ==> !spec_is_whitespace(#[trigger] s@[k]),
        decreases to - j,
    {
        j = j + 1;
    }
    proof {
        let t = s@.subrange(i as int, to as int);
        assert forall|k: int| 0 <= k < j - i implies !spec_is_whitespace(#[trigger] t[k]) by {
            assert(t[k] == s@[i + k]);
        }
        if j < to {
            assert(t[j - i] == s@[j as int]);
        }
        lemma_word_end_is(t, j - i);
        assert(t.take(j - i) =~= s@.subrange(i as int, j as int));
    }
    Some(string_of(s, i, j))
}

/// The checksum that the `checksums.txt` text lists for `asset_name`, lower-cased;
/// `None` when no line names the asset or that line is blank.
pub fn expected_checksum(text: &str, asset_name: &str) -> (r: Option<String>)
    ensures
        match (r, spec_expected_checksum(text@, asset_name@)) {
            (Some(w), Some(v)) => w@ == v,
            (None, None) => true,
            _ => false,
        },
{
    let cs = chars_of(text);
    let pat = chars_of(asset_name);
    let n = cs.len();
    let mut p: usize = 0;
    assert(cs@.skip(0) == cs@);
    while p < n
        invariant
            p <= n == cs.len(),
            cs@ == text@,
            pat@ == asset_name@,
            first_line_containing(spec_lines(cs@), pat@) == first_line_containing(spec_lines(cs@.skip(p as int)), pat@),
        decreases n - p,
    {
        let mut k = p;
        while k < n && cs[k] != '\n'
            invariant
                p <= k <= n == cs.len(),
                forall|j: int| p <= j < k ==> cs@[j] != '\n',
            decreases n - k,
        {
            k = k + 1;
        }
        let ghost rest = cs@.skip(p as int);
        proof {
            assert forall|j: int| 0 <= j < k - p implies rest[j] != '\n' by {
                assert(rest[j] == cs@[p + j]);
            }
            if k < n {
                assert(rest[k - p] == cs@[k as int]);
            }
            lemma_newline_at_is(rest, k - p);
        }
        // The line without its line feed, and without a carriage return before it.
        let end = if k < n && k > p && cs[k - 1] == '\r' { k - 1 } else { k };
        let ghost line = if k < n { strip_cr(rest.take(k - p)) } else { rest };
        proof {
            if k < n {
                assert(rest.take(k - p) =~= cs@.subrange(p as int, k as int));
                if k > p {
                    assert(rest.take(k - p).last() == cs@[k - 1]);
                }
                assert(line =~= cs@.subrange(p as int, end as int));
                assert(spec_lines(rest) == seq![line] + spec_lines(rest.skip(k - p + 1)));
                assert(rest.skip(k - p + 1) =~= cs@.skip(k + 1));
            } else {
                assert(rest =~= cs@.subrange(p as int, n as int));
                assert(spec_lines(rest) == seq![rest]);
            }
            assert((seq![line] + spec_lines(rest.skip(k - p + 1))).drop_first() =~= spec_lines(rest.skip(k - p + 1)));
        }
        if contains_at(&cs, p, end, &pat) {
            return match first_word_of(&cs, p, end) {
                Some(w) => Some(to_lowercase(w.as_str())),
                None => None,
            };
        }
        if k == n {
            proof {
                assert(spec_lines(rest) == seq![line]);
                assert(seq![line].drop_first() =~= Seq::<Seq<char>>::empty());
                assert(first_line_containing(Seq::<Seq<char>>::empty(), pat@) is None);
            }
            return None;
        }
        p = k + 1;
    }
    proof {
        assert(cs@.skip(p as int).len() == 0);
    }
    None
}

// ── Verifying a download ──────────────────────────────────────────────────────

/// The SHA-256 digest of the bytes.
pub uninterp spec fn spec_sha256(data: Seq<u8>) -> Seq<u8>;

/// `sha2::Sha256::digest`. Trusted: the digest is the named function of the bytes,
/// 32 bytes long.
#[verifier::external_body]
fn sha256(data: &[u8]) -> (r: Vec<u8>)
    ensures
        r@ == spec_sha256(data@),
        r@.len() == 32,
{
    <sha2::Sha256 as sha2::Digest>::digest(data).to_vec()
}

/// The lower-case hexadecimal digit for `d < 16`.
pub open spec fn hex_digit(d: int) -> char {
    if d < 10 {
        (48 + d) as char
    } else {
        (87 + d) as char
    }
}

/// Lower-case hexadecimal, two digits per byte, high nibble first.
pub open spec fn spec_hex_lower(data: Seq<u8>) -> Seq<char>
    decreases data.len(),
{
    if data.len() == 0 {
        Seq::empty()
    } else {
        seq![hex_digit((data[0] / 16) as int), hex_digit((data[0] % 16) as int)] + spec_hex_lower(data.drop_first())
    }
}

/// `hex::encode`. Trusted, as its documentation states: lower-case digits, two per
/// byte.
#[verifier::external_body]
fn hex_encode(data: &[u8]) -> (r: String)
    ensures
        r@ == spec_hex_lower(data@),
{
    hex::encode(data)
}

pub open spec fn mismatch_message(expected: Seq<char>, actual: Seq<char>) -> Seq<char> {
    "SHA-256 mismatch — download may be corrupt.\nExpected: "@ + expected + "\nGot:      "@ + actual
}

pub open spec fn spec_checksum_verdict(actual: Seq<char>, expected: Seq<char>) -> Result<(), Seq<char>> {
    if actual == expected {
        Ok(())
    } else {
        Err(mismatch_message(expected, actual))
    }
}

pub open spec fn unit_result_view(r: Result<(), String>) -> Result<(), Seq<char>> {
    match r {
        Ok(()) => Ok(()),
        Err(e) => Err(e@),
    }
}

/// Compares the digest of the download (`actual`, lower-case hex) with the one the
/// checksums file lists (`expected`).
pub fn checksum_verdict(actual: &String, expected: &String) -> (r: Result<(), String>)
    ensures
        unit_result_view(r) == spec_checksum_verdict(actual@, expected@),
{
    if *actual != *expected {
        let mut msg = String::from_str("SHA-256 mismatch — download may be corrupt.\nExpected: ");
        msg.append(expected.as_str());
        msg.append("\nGot:      ");
        msg.append(actual.as_str());
        return Err(msg);
    }
    Ok(())
}

/// Checks the downloaded bytes against the expected lower-case SHA-256 hex digest.
pub fn verify_checksum(data: &[u8], expected: &String) -> (r: Result<(), String>)
    ensures
        unit_result_view(r) == spec_checksum_verdict(spec_hex_lower(spec_sha256(data@)), expected@),
{
    let digest = sha256(data);
    let actual = hex_encode(digest.as_slice());
    checksum_verdict(&actual, expected)
}

/// Checks a downloaded binary: when the release has a checksums file (`checksums`)
/// that lists the asset, its digest must match; otherwise it is accepted.
pub open spec fn spec_check_download(data: Seq<u8>, checksums: Option<Seq<char>>, asset_name: Seq<char>) -> Result<(), Seq<char>> {
    match checksums {
        Some(text) => match spec_expected_checksum(text, asset_name) {
            Some(expected) => spec_checksum_verdict(spec_hex_lower(spec_sha256(data)), expected),
            None => Ok(()),
        },
        None => Ok(()),
    }
}

/// Verifies a downloaded binary against the release's checksums file, if any.
pub fn check_download(data: &[u8], checksums: Option<&str>, asset_name: &str) -> (r: Result<(), String>)
    ensures
        unit_result_view(r) == spec_check_download(
            data@,
            match checksums {
                Some(t) => Some(t@),
                None => None,
            },
            asset_name@,
        ),
{
    match checksums {
        Some(text) => match expected_checksum(text, asset_name) {
            Some(expected) => verify_checksum(data, &expected),
            None => Ok(()),
        },
        None => Ok(()),
    }
}

} // verus!
