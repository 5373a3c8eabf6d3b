use vstd::prelude::*;
use crate::textutil::{find_char_from, strip_prefix_spec, strip_prefix_str};

verus! {

// ---------------------------------------------------------------------------
// The directive record
// ---------------------------------------------------------------------------

/// A deployment manifest: one application's desired webserver and
/// process-supervision configuration. Immutable once read for a poll cycle;
/// re-parsed fresh each cycle from its source file.
#[derive(Debug, Clone)]
pub struct Directive {
    pub url: String,
    /// Triggering service restart if the directory changes.
    pub track_directory: bool,
    /// Whether a webserver configuration is to be generated.
    pub webserver: bool,
    pub port: u16,
    /// The PHP-FPM runtime version the generated config dispatches to.
    pub php_fpm_version: Option<String>,
    pub nodejs_bool: bool,
    pub nodejs_version: Option<String>,
    /// Changes what is written to the service file.
    pub nodejs_exec_command: Option<String>,
    /// Changes what is written to the service file.
    pub nodejs_pre_exec_command: Option<String>,
    /// Informational only: authoritative execution state lives in the
    /// marker files, never in the manifest itself.
    pub directive_executed: bool,
}

impl Directive {
    /// A default pre-filled directive.
    pub fn default_prefilled() -> (r: Directive)
        ensures
            r.url@ == "http://example.com"@,
            r.track_directory == true,
            r.webserver == false,
            r.port == 8080,
            (r.php_fpm_version matches Some(v) && v@ == "8.2"@),
            r.nodejs_bool == true,
            (r.nodejs_version matches Some(v) && v@ == "22.6.0"@),
            (r.nodejs_exec_command matches Some(v) && v@ == "npm start"@),
            (r.nodejs_pre_exec_command matches Some(v) && v@ == "npm run build"@),
            r.directive_executed == false,
    {
        Directive {
            url: "http://example.com".to_owned(),
            track_directory: true,
            webserver: false,
            port: 8080,
            php_fpm_version: Some("8.2".to_owned()),
            nodejs_bool: true,
            nodejs_version: Some("22.6.0".to_owned()),
            nodejs_exec_command: Some("npm start".to_owned()),
            nodejs_pre_exec_command: Some("npm run build".to_owned()),
            directive_executed: false,
        }
    }
}

// ---------------------------------------------------------------------------
// Deployment identity
// ---------------------------------------------------------------------------

/// The webroot under which deployments live; a deployment's identity is its
/// directory path relative to this root.
pub const WEBROOT_PREFIX: &'static str = "/var/www/ais/";

/// The service identity of a deployment directory: the path with the
/// webroot prefix removed (unchanged when it lies outside the webroot).
pub open spec fn service_id_spec(parent: Seq<char>) -> Seq<char> {
    strip_prefix_spec("/var/www/ais/"@, parent)
}

/// Derives the service identity from a deployment directory path.
pub fn service_id_of(parent: &str) -> (r: String)
    ensures
        r@ == service_id_spec(parent@),
{
    strip_prefix_str(parent, WEBROOT_PREFIX)
}

// ---------------------------------------------------------------------------
// Comment stripping
// ---------------------------------------------------------------------------

/// The characters a line's leading whitespace may consist of: the Unicode
/// white-space class, the set `char::is_whitespace` accepts.
pub open spec fn is_space(c: char) -> bool {
    ||| c == ' '
    ||| c == '\t'
    ||| c == '\n'
    ||| c == '\u{000B}'
    ||| c == '\u{000C}'
    ||| c == '\r'
    ||| c == '\u{0085}'
    ||| c == '\u{00A0}'
    ||| c == '\u{1680}'
    ||| ('\u{2000}' <= c && c <= '\u{200A}')
    ||| c == '\u{2028}'
    ||| c == '\u{2029}'
    ||| c == '\u{202F}'
    ||| c == '\u{205F}'
    ||| c == '\u{3000}'
}

/// The length of the first line of `s`: the index of the first newline, or
/// the whole length when there is none.
pub open spec fn line_end(s: Seq<char>) -> int
    decreases s.len(),
{
    if s.len() == 0 {
        0
    } else if s[0] == '\n' {
        0
    } else {
        1 + line_end(s.skip(1))
    }
}

/// A line without its trailing carriage return, if it carries one.
pub open spec fn chomp_cr(line: Seq<char>) -> Seq<char> {
    if line.len() > 0 && line[line.len() - 1] == '\r' {
        line.drop_last()
    } else {
        line
    }
}

/// The index of the first character of a line that is not leading
/// whitespace, or the line's length when it is whitespace only.
pub open spec fn first_nonspace(line: Seq<char>) -> int
    decreases line.len(),
{
    if line.len() == 0 {
        0
    } else if is_space(line[0]) {
        1 + first_nonspace(line.skip(1))
    } else {
        0
    }
}

/// A comment line: its first non-whitespace character is `#`.
pub open spec fn is_comment_line(line: Seq<char>) -> bool {
    first_nonspace(line) < line.len() && line[first_nonspace(line)] == '#'
}

proof fn lemma_line_end_bounds(s: Seq<char>)
    ensures
        0 <= line_end(s) <= s.len(),
    decreases s.len(),
{
    if s.len() > 0 && s[0] != '\n' {
        lemma_line_end_bounds(s.skip(1));
    }
}

/// The manifest text with comment lines removed: each line is taken without
/// its line terminator; a line whose first non-whitespace character is `#`
/// is dropped; every kept line is closed with a single newline, whether or
/// not the original line had one.
pub open spec fn strip_comments_spec(s: Seq<char>) -> Seq<char>
    decreases s.len(),
    via strip_comments_spec_dec
{
    if s.len() == 0 {
        Seq::<char>::empty()
    } else {
        let k = line_end(s);
        let line = chomp_cr(s.take(k));
        let rest = if k < s.len() {
            s.skip(k + 1)
        } else {
            Seq::<char>::empty()
        };
        (if is_comment_line(line) {
            Seq::<char>::empty()
        } else {
            line + seq!['\n']
        }) + strip_comments_spec(rest)
    }
}

#[via_fn]
proof fn strip_comments_spec_dec(s: Seq<char>) {
    lemma_line_end_bounds(s);
}

proof fn lemma_line_end_at(s: Seq<char>, k: int)
    requires
        0 <= k <= s.len(),
        forall|j: int| 0 <= j < k ==> s[j] != '\n',
        k == s.len() || s[k] == '\n',
    ensures
        line_end(s) == k,
    decreases k,
{
    if k > 0 {
        lemma_line_end_at(s.skip(1), k - 1);
    }
}

proof fn lemma_first_nonspace_at(line: Seq<char>, m: int)
    requires
        0 <= m <= line.len(),
        forall|j: int| 0 <= j < m ==> is_space(line[j]),
        m == line.len() || !is_space(line[m]),
    ensures
        first_nonspace(line) == m,
    decreases m,
{
    if m > 0 {
        lemma_first_nonspace_at(line.skip(1), m - 1);
    }
}

/// Whether the character counts as leading whitespace.
fn is_space_char(c: char) -> (r: bool)
    ensures
        r == is_space(c),
{
    c == ' ' || c == '\t' || c == '\n' || c == '\u{000B}' || c == '\u{000C}' || c == '\r'
        || c == '\u{0085}' || c == '\u{00A0}' || c == '\u{1680}' || ('\u{2000}' <= c && c
        <= '\u{200A}') || c == '\u{2028}' || c == '\u{2029}' || c == '\u{202F}' || c == '\u{205F}'
        || c == '\u{3000}'
}

/// Removes comment lines from manifest text: a line whose first
/// non-whitespace character is `#` is dropped before the remainder is
/// interpreted; every kept line is closed with a newline.
pub fn strip_comment_lines(s: &str) -> (r: String)
    ensures
        r@ == strip_comments_spec(s@),
{
    let n = s.unicode_len();
    let mut out = String::new();
    let mut pos: usize = 0;
    proof {
        assert(s@.skip(0) =~= s@);
        assert(out@ + strip_comments_spec(s@) =~= strip_comments_spec(s@));
    }
    while pos < n
        invariant
            0 <= pos <= n,
            n == s@.len(),
            out@ + strip_comments_spec(s@.skip(pos as int)) == strip_comments_spec(s@),
        decreases n - pos,
    {
        let ghost t = s@.skip(pos as int);
        // Find the end of the current line.
        let k = match find_char_from(s, pos, '\n') {
            Some(i) => i,
            None => n,
        };
        proof {
            assert forall|j: int| 0 <= j < k - pos implies t[j] != '\n' by {
                assert(t[j] == s@[pos + j]);
            }
            if k < n {
                assert(t[k - pos] == s@[k as int]);
            }
            lemma_line_end_at(t, k - pos);
        }
        // Drop a trailing carriage return from the line.
        let line_last = if k > pos && s.get_char(k - 1) == '\r' {
            k - 1
        } else {
            k
        };
        proof {
            assert(t.take(k - pos) =~= s@.subrange(pos as int, k as int));
            if k > pos && s@[k - 1] == '\r' {
                assert(chomp_cr(t.take(k - pos)) =~= s@.subrange(pos as int, line_last as int));
            } else {
                assert(chomp_cr(t.take(k - pos)) =~= s@.subrange(pos as int, line_last as int));
            }
        }
        let ghost line = chomp_cr(t.take(k - pos));
        // Find the first non-whitespace character of the line.
        let mut i: usize = pos;
        while i < line_last && is_space_char(s.get_char(i))
            invariant
                pos <= i <= line_last,
                line_last <= n,
                n == s@.len(),
                forall|j: int| pos <= j < i ==> is_space(s@[j]),
            decreases line_last - i,
        {
            i = i + 1;
        }
        let comment = i < line_last && s.get_char(i) == '#';
        proof {
            assert forall|j: int| 0 <= j < i - pos implies is_space(line[j]) by {
                assert(line[j] == s@[pos + j]);
            }
            if i < line_last {
                assert(line[i - pos] == s@[i as int]);
            }
            lemma_first_nonspace_at(line, i - pos);
            assert(comment == is_comment_line(line));
        }
        // Keep the line, closed with a newline, unless it is a comment.
        if !comment {
            let kept = s.substring_char(pos, line_last);
            out.append(kept);
            out.append("\n");
            proof {
                reveal_strlit("\n");
                assert(kept@ =~= line);
                assert("\n"@ =~= seq!['\n']);
            }
        }
        // Step past the line terminator.
        let new_pos = if k < n {
            k + 1
        } else {
            n
        };
        proof {
            let rest = if k - pos < t.len() {
                t.skip(k - pos + 1)
            } else {
                Seq::<char>::empty()
            };
            assert(rest =~= s@.skip(new_pos as int));
            let handled = if is_comment_line(line) {
                Seq::<char>::empty()
            } else {
                line + seq!['\n']
            };
            assert(strip_comments_spec(t) == handled + strip_comments_spec(rest));
            assert(out@ + strip_comments_spec(s@.skip(new_pos as int)) =~= strip_comments_spec(
                s@,
            ));
        }
        pos = new_pos;
    }
    proof {
        assert(s@.skip(n as int) =~= Seq::<char>::empty());
        assert(out@ + strip_comments_spec(s@.skip(n as int)) =~= out@);
    }
    out
}

} // verus!
