//! Utilities for using the key uploader script.
//!
//! The key uploader is a simple shell script that reads the contents
//! of the secret file from stdin into a temporary file then atomically
//! replaces the destination file with the temporary file.

use vstd::prelude::*;

use crate::error;
use crate::error::{ColmenaError, ColmenaResult, ErrorModel, ExitStatus};
use crate::shell;
use crate::text;

verus! {

/// The uploader script, with placeholders between percent signs.
///
/// It has neither single quotes nor exclamation marks, which some login
/// shells misread once escaped.
pub const SCRIPT_TEMPLATE: &'static str = "set -eu

destination=\"%DESTINATION%\"
user=%USER%
group=%GROUP%
permissions=%PERMISSIONS%
require_ownership=%REQUIRE_OWNERSHIP%

tmp=\"$destination.tmp\"

mkdir -p \"$(dirname \"$destination\")\"
umask 077
cat > \"$tmp\"
chmod 600 \"$tmp\"

if [ -n \"$require_ownership\" ]; then
  chown \"$user:$group\" \"$tmp\"
elif id -u \"$user\" > /dev/null 2>&1; then
  chown \"$user:$group\" \"$tmp\" || echo \"Could not chown to $user:$group\" >&2
else
  echo \"User $user does not exist, skipping chown\" >&2
fi

chmod \"$permissions\" \"$tmp\"
mv \"$tmp\" \"$destination\"
";

/// A key to upload to a host.
#[derive(Debug)]
pub struct Key {
    pub name: String,
    /// Where the key goes on the host.
    pub path: String,
    pub user: String,
    pub group: String,
    pub permissions: String,
}

impl Key {
    /// Returns the name of the key.
    pub fn name(&self) -> (r: &str)
        ensures
            r@ == self.name@,
    {
        self.name.as_str()
    }

    /// Returns where the key goes on the host.
    pub fn path(&self) -> (r: &str)
        ensures
            r@ == self.path@,
    {
        self.path.as_str()
    }

    /// Returns the user that owns the key.
    pub fn user(&self) -> (r: &str)
        ensures
            r@ == self.user@,
    {
        self.user.as_str()
    }

    /// Returns the group that owns the key.
    pub fn group(&self) -> (r: &str)
        ensures
            r@ == self.group@,
    {
        self.group.as_str()
    }

    /// Returns the permissions of the key.
    pub fn permissions(&self) -> (r: &str)
        ensures
            r@ == self.permissions@,
    {
        self.permissions.as_str()
    }
}

/// A template with its placeholders filled in, one after the other.
pub open spec fn filled(
    template: Seq<char>,
    destination: Seq<char>,
    user: Seq<char>,
    group: Seq<char>,
    permissions: Seq<char>,
    ownership: Seq<char>,
) -> Seq<char> {
    let s1 = text::replaced(template, "%DESTINATION%"@, destination);
    let s2 = text::replaced(s1, "%USER%"@, user);
    let s3 = text::replaced(s2, "%GROUP%"@, group);
    let s4 = text::replaced(s3, "%PERMISSIONS%"@, permissions);
    text::replaced(s4, "%REQUIRE_OWNERSHIP%"@, ownership)
}

/// The uploader script of a key.
pub open spec fn script(
    destination: Seq<char>,
    user: Seq<char>,
    group: Seq<char>,
    permissions: Seq<char>,
    require_ownership: bool,
) -> Seq<char> {
    text::without_final_newlines(
        filled(
            SCRIPT_TEMPLATE@,
            destination,
            shell::escaped(user),
            shell::escaped(group),
            shell::escaped(permissions),
            if require_ownership {
                "1"@
            } else {
                ""@
            },
        ),
    )
}

/// Returns the uploader script, to be run with `sh -c`.
pub fn generate_script(key: &Key, destination: &str, require_ownership: bool) -> (r: String)
    ensures
        r@ == script(
            destination@,
            key.user@,
            key.group@,
            key.permissions@,
            require_ownership,
        ),
{
    proof {
        reveal_strlit("%DESTINATION%");
        reveal_strlit("%USER%");
        reveal_strlit("%GROUP%");
        reveal_strlit("%PERMISSIONS%");
        reveal_strlit("%REQUIRE_OWNERSHIP%");
    }
    let user: String = shell::escape(key.user());
    let group: String = shell::escape(key.group());
    let permissions: String = shell::escape(key.permissions());
    let ownership: &str = if require_ownership {
        "1"
    } else {
        ""
    };
    let s1: String = text::replace(SCRIPT_TEMPLATE, "%DESTINATION%", destination);
    let s2: String = text::replace(s1.as_str(), "%USER%", user.as_str());
    let s3: String = text::replace(s2.as_str(), "%GROUP%", group.as_str());
    let s4: String = text::replace(s3.as_str(), "%PERMISSIONS%", permissions.as_str());
    let s5: String = text::replace(s4.as_str(), "%REQUIRE_OWNERSHIP%", ownership);
    text::trim_final_newlines(s5.as_str())
}

/// Returns what to tell the user when a key is uploaded.
pub fn upload_message(name: &str) -> (r: String)
    ensures
        r@ == "Uploading key "@ + name@,
{
    "Uploading key ".to_string().concat(name)
}

/// Returns the error of a key whose contents cannot be read.
pub fn key_error(key: &Key, error: String) -> (r: ColmenaError)
    ensures
        r@ == (ErrorModel::KeyError { name: key.name@, error: error@ }),
{
    ColmenaError::KeyError { name: key.name.clone(), error }
}

/// The result of an upload, given what became of the output of the uploader
/// and of the uploader itself. The first failure counts.
pub open spec fn upload_outcome(
    stdout: Result<(), ErrorModel>,
    stderr: Result<(), ErrorModel>,
    exit: Result<ExitStatus, std::io::Error>,
) -> Result<(), ErrorModel> {
    match (stdout, stderr, exit) {
        (Err(e), _, _) => Err(e),
        (_, Err(e), _) => Err(e),
        (_, _, Err(error)) => Err(ErrorModel::IoError { error }),
        (_, _, Ok(status)) => if status == ExitStatus::Code(0) {
            Ok(())
        } else {
            Err(status.error())
        },
    }
}

/// Returns the result of an upload, once the contents of the key were fed to
/// the uploader.
pub fn uploaded(
    stdout: ColmenaResult<()>,
    stderr: ColmenaResult<()>,
    exit: Result<ExitStatus, std::io::Error>,
) -> (r: ColmenaResult<()>)
    ensures
        error::outcome(r) == upload_outcome(error::outcome(stdout), error::outcome(stderr), exit),
{
    match (stdout, stderr, exit) {
        (Err(e), _, _) => Err(e),
        (_, Err(e), _) => Err(e),
        (_, _, Err(e)) => Err(ColmenaError::from(e)),
        (_, _, Ok(status)) => status.result(),
    }
}

/// A replacement brings in no quote or exclamation mark of its own.
proof fn lemma_replaced_clean(s: Seq<char>, pattern: Seq<char>, with: Seq<char>)
    requires
        !shell::has_quote_or_bang(s),
        !shell::has_quote_or_bang(with),
    ensures
        !shell::has_quote_or_bang(text::replaced(s, pattern, with)),
    decreases s.len(),
{
    let r = text::replaced(s, pattern, with);
    if s.len() > 0 && pattern.len() > 0 {
        let (front, rest) = if text::begins_with(s, pattern) {
            (with, s.skip(pattern.len() as int))
        } else {
            (seq![s[0]], s.drop_first())
        };
        assert(s.drop_first() =~= s.skip(1));
        assert forall|i: int| 0 <= i < rest.len() implies #[trigger] rest[i] != '\'' && rest[i]
            != '!' by {
            let j = i + s.len() - rest.len();
            assert(rest[i] == s[j]);
        }
        lemma_replaced_clean(rest, pattern, with);
        let tail = text::replaced(rest, pattern, with);
        assert forall|i: int| 0 <= i < r.len() implies #[trigger] r[i] != '\'' && r[i] != '!' by {
            if i < front.len() {
                assert(r[i] == front[i]);
                assert(s[0] != '\'' && s[0] != '!');
            } else {
                assert(r[i] == tail[i - front.len()]);
            }
        }
    }
}

proof fn lemma_trimmed_clean(s: Seq<char>)
    requires
        !shell::has_quote_or_bang(s),
    ensures
        !shell::has_quote_or_bang(text::without_final_newlines(s)),
    decreases s.len(),
{
    if s.len() > 0 && s.last() == '\n' {
        let front = s.drop_last();
        assert forall|i: int| 0 <= i < front.len() implies #[trigger] front[i] != '\'' && front[i]
            != '!' by {
            assert(front[i] == s[i]);
        }
        lemma_trimmed_clean(front);
    }
}

proof fn lemma_plain_clean(s: Seq<char>)
    requires
        shell::is_plain_word(s),
    ensures
        shell::escaped(s) == s,
        !shell::has_quote_or_bang(s),
{
    assert forall|i: int| 0 <= i < s.len() implies #[trigger] s[i] != '\'' && s[i] != '!' by {
        assert(shell::is_plain(s[i]));
    }
}

/// The template has neither single quotes nor exclamation marks.
pub proof fn law_template_has_no_quote_or_bang()
    ensures
        !shell::has_quote_or_bang(SCRIPT_TEMPLATE@),
{
    reveal_strlit("set -eu

destination=\"%DESTINATION%\"
user=%USER%
group=%GROUP%
permissions=%PERMISSIONS%
require_ownership=%REQUIRE_OWNERSHIP%

tmp=\"$destination.tmp\"

mkdir -p \"$(dirname \"$destination\")\"
umask 077
cat > \"$tmp\"
chmod 600 \"$tmp\"

if [ -n \"$require_ownership\" ]; then
  chown \"$user:$group\" \"$tmp\"
elif id -u \"$user\" > /dev/null 2>&1; then
  chown \"$user:$group\" \"$tmp\" || echo \"Could not chown to $user:$group\" >&2
else
  echo \"User $user does not exist, skipping chown\" >&2
fi

chmod \"$permissions\" \"$tmp\"
mv \"$tmp\" \"$destination\"
");
}

/// The commands of the uploader script, which follow its variables.
pub open spec fn script_commands() -> Seq<char> {
    "

tmp=\"$destination.tmp\"

mkdir -p \"$(dirname \"$destination\")\"
umask 077
cat > \"$tmp\"
chmod 600 \"$tmp\"

if [ -n \"$require_ownership\" ]; then
  chown \"$user:$group\" \"$tmp\"
elif id -u \"$user\" > /dev/null 2>&1; then
  chown \"$user:$group\" \"$tmp\" || echo \"Could not chown to $user:$group\" >&2
else
  echo \"User $user does not exist, skipping chown\" >&2
fi

chmod \"$permissions\" \"$tmp\"
mv \"$tmp\" \"$destination\""@
}

/// The uploader script with the given values of its variables.
pub open spec fn script_with(
    destination: Seq<char>,
    user: Seq<char>,
    group: Seq<char>,
    permissions: Seq<char>,
    ownership: Seq<char>,
) -> Seq<char> {
    "set -eu\n\ndestination=\""@ + destination + "\"\nuser="@ + user + "\ngroup="@ + group
        + "\npermissions="@ + permissions + "\nrequire_ownership="@ + ownership
        + script_commands()
}

/// Whether a text holds no percent sign.
pub open spec fn no_percent(s: Seq<char>) -> bool {
    forall|i: int| 0 <= i < s.len() ==> #[trigger] s[i] != '%'
}

/// Whether a text is a placeholder: a name between percent signs.
spec fn is_placeholder(s: Seq<char>) -> bool {
    &&& s.len() > 2
    &&& s[0] == '%'
    &&& s.last() == '%'
    &&& no_percent(s.subrange(1, s.len() - 1))
}

/// A replacement of a placeholder leaves a text without percent signs alone.
proof fn lemma_replaced_after(
    front: Seq<char>,
    rest: Seq<char>,
    pattern: Seq<char>,
    with: Seq<char>,
)
    requires
        no_percent(front),
        is_placeholder(pattern),
    ensures
        text::replaced(front + rest, pattern, with) == front + text::replaced(rest, pattern, with),
    decreases front.len(),
{
    if front.len() == 0 {
        assert(front + rest =~= rest);
        assert(front + text::replaced(rest, pattern, with) =~= text::replaced(rest, pattern, with));
    } else {
        let tail = front.drop_first();
        assert(front[0] != '%');
        assert forall|i: int| 0 <= i < tail.len() implies #[trigger] tail[i] != '%' by {
            assert(tail[i] == front[i + 1]);
        }
        lemma_replaced_after(tail, rest, pattern, with);
        text::lemma_replaced_skips(front[0], tail + rest, pattern, with);
        assert(front + rest =~= seq![front[0]] + (tail + rest));
        assert(front + text::replaced(rest, pattern, with) =~= seq![front[0]] + (tail
            + text::replaced(rest, pattern, with)));
    }
}

/// A replacement of one placeholder leaves another one alone, and the text
/// around it.
proof fn lemma_replaced_other(
    front: Seq<char>,
    other: Seq<char>,
    rest: Seq<char>,
    pattern: Seq<char>,
    with: Seq<char>,
)
    requires
        no_percent(front),
        is_placeholder(pattern),
        is_placeholder(other),
        other[1] != pattern[1],
        rest.len() > 0,
        rest[0] != pattern[1],
        text::replaced(rest, pattern, with) == rest,
    ensures
        text::replaced(front + other + rest, pattern, with) == front + other + rest,
{
    let mark = seq!['%'];
    let name = other.subrange(1, other.len() - 1);
    let end = mark + rest;
    if text::begins_with(end, pattern) {
        assert(end.take(pattern.len() as int)[1] == rest[0]);
    }
    assert(end.drop_first() =~= rest);
    assert(text::replaced(end, pattern, with) == end);
    lemma_replaced_after(name, end, pattern, with);
    let all = mark + (name + end);
    assert(all =~= other + rest);
    if text::begins_with(all, pattern) {
        assert(all.take(pattern.len() as int)[1] == other[1]);
    }
    assert(all.drop_first() =~= name + end);
    assert(text::replaced(all, pattern, with) == all);
    lemma_replaced_after(front, all, pattern, with);
    assert(front + other + rest =~= front + all);
}

/// A replacement of the only placeholder of its name.
proof fn lemma_replaced_one(front: Seq<char>, rest: Seq<char>, pattern: Seq<char>, with: Seq<char>)
    requires
        no_percent(front),
        is_placeholder(pattern),
        text::replaced(rest, pattern, with) == rest,
    ensures
        text::replaced(front + pattern + rest, pattern, with) == front + with + rest,
{
    lemma_replaced_after(front, pattern + rest, pattern, with);
    text::lemma_replaced_takes(rest, pattern, with);
    assert(front + pattern + rest =~= front + (pattern + rest));
    assert(front + with + rest =~= front + (with + rest));
}

proof fn lemma_escaped_no_percent(s: Seq<char>)
    requires
        no_percent(s),
    ensures
        no_percent(shell::escaped(s)),
{
    lemma_quoted_no_percent(s);
}

proof fn lemma_quoted_no_percent(s: Seq<char>)
    requires
        no_percent(s),
    ensures
        no_percent(shell::quoted_body(s)),
    decreases s.len(),
{
    if s.len() > 0 {
        let tail = s.drop_first();
        assert(s[0] != '%');
        assert forall|i: int| 0 <= i < tail.len() implies #[trigger] tail[i] != '%' by {
            assert(tail[i] == s[i + 1]);
        }
        lemma_quoted_no_percent(tail);
    }
}

/// The variables of the uploader script, from one of them on, with
/// placeholders for their values.
spec fn from_user() -> Seq<char> {
    "\"\nuser="@ + "%USER%"@ + from_group()
}

spec fn from_group() -> Seq<char> {
    "\ngroup="@ + "%GROUP%"@ + from_permissions()
}

spec fn from_permissions() -> Seq<char> {
    "\npermissions="@ + "%PERMISSIONS%"@ + from_ownership()
}

spec fn from_ownership() -> Seq<char> {
    "\nrequire_ownership="@ + "%REQUIRE_OWNERSHIP%"@ + from_commands()
}

spec fn from_commands() -> Seq<char> {
    script_commands() + "\n"@
}

proof fn lemma_literals()
    ensures
        is_placeholder("%DESTINATION%"@),
        is_placeholder("%USER%"@),
        is_placeholder("%GROUP%"@),
        is_placeholder("%PERMISSIONS%"@),
        is_placeholder("%REQUIRE_OWNERSHIP%"@),
        "%DESTINATION%"@[1] == 'D',
        "%USER%"@[1] == 'U',
        "%GROUP%"@[1] == 'G',
        "%PERMISSIONS%"@[1] == 'P',
        "%REQUIRE_OWNERSHIP%"@[1] == 'R',
        no_percent("set -eu\n\ndestination=\""@),
        no_percent("\"\nuser="@),
        no_percent("\ngroup="@),
        no_percent("\npermissions="@),
        no_percent("\nrequire_ownership="@),
        no_percent(from_commands()),
        from_user()[0] == '"',
        from_group()[0] == '\n',
        from_permissions()[0] == '\n',
        from_ownership()[0] == '\n',
        from_commands()[0] == '\n',
        from_commands().len() > 0,
        SCRIPT_TEMPLATE@ == "set -eu\n\ndestination=\""@ + "%DESTINATION%"@ + from_user(),
{
    reveal_strlit("%DESTINATION%");
    reveal_strlit("%USER%");
    reveal_strlit("%GROUP%");
    reveal_strlit("%PERMISSIONS%");
    reveal_strlit("%REQUIRE_OWNERSHIP%");
    reveal_strlit("set -eu\n\ndestination=\"");
    reveal_strlit("\"\nuser=");
    reveal_strlit("\ngroup=");
    reveal_strlit("\npermissions=");
    reveal_strlit("\nrequire_ownership=");
    reveal_strlit("\n");
    reveal_strlit("

tmp=\"$destination.tmp\"

mkdir -p \"$(dirname \"$destination\")\"
umask 077
cat > \"$tmp\"
chmod 600 \"$tmp\"

if [ -n \"$require_ownership\" ]; then
  chown \"$user:$group\" \"$tmp\"
elif id -u \"$user\" > /dev/null 2>&1; then
  chown \"$user:$group\" \"$tmp\" || echo \"Could not chown to $user:$group\" >&2
else
  echo \"User $user does not exist, skipping chown\" >&2
fi

chmod \"$permissions\" \"$tmp\"
mv \"$tmp\" \"$destination\"");
    reveal_strlit("set -eu

destination=\"%DESTINATION%\"
user=%USER%
group=%GROUP%
permissions=%PERMISSIONS%
require_ownership=%REQUIRE_OWNERSHIP%

tmp=\"$destination.tmp\"

mkdir -p \"$(dirname \"$destination\")\"
umask 077
cat > \"$tmp\"
chmod 600 \"$tmp\"

if [ -n \"$require_ownership\" ]; then
  chown \"$user:$group\" \"$tmp\"
elif id -u \"$user\" > /dev/null 2>&1; then
  chown \"$user:$group\" \"$tmp\" || echo \"Could not chown to $user:$group\" >&2
else
  echo \"User $user does not exist, skipping chown\" >&2
fi

chmod \"$permissions\" \"$tmp\"
mv \"$tmp\" \"$destination\"
");
    assert(SCRIPT_TEMPLATE@ =~= "set -eu\n\ndestination=\""@ + "%DESTINATION%"@ + from_user());
}

/// The commands end with a quote, before the newline of the template.
proof fn lemma_commands()
    ensures
        script_commands().len() > 0,
        script_commands().last() == '"',
        no_percent(script_commands()),
        "\n"@ == seq!['\n'],
{
    reveal_strlit("

tmp=\"$destination.tmp\"

mkdir -p \"$(dirname \"$destination\")\"
umask 077
cat > \"$tmp\"
chmod 600 \"$tmp\"

if [ -n \"$require_ownership\" ]; then
  chown \"$user:$group\" \"$tmp\"
elif id -u \"$user\" > /dev/null 2>&1; then
  chown \"$user:$group\" \"$tmp\" || echo \"Could not chown to $user:$group\" >&2
else
  echo \"User $user does not exist, skipping chown\" >&2
fi

chmod \"$permissions\" \"$tmp\"
mv \"$tmp\" \"$destination\"");
    reveal_strlit("\n");
    assert("\n"@ =~= seq!['\n']);
}

/// A replacement of a placeholder leaves what comes after it alone.
proof fn lemma_rest_unchanged(pattern: Seq<char>, with: Seq<char>)
    requires
        is_placeholder(pattern),
        'A' <= pattern[1] <= 'Z',
    ensures
        text::replaced(from_commands(), pattern, with) == from_commands(),
        pattern[1] != 'R' ==> text::replaced(from_ownership(), pattern, with) == from_ownership(),
        pattern[1] != 'R' && pattern[1] != 'P' ==> text::replaced(
            from_permissions(),
            pattern,
            with,
        ) == from_permissions(),
        pattern[1] == 'D' || pattern[1] == 'U' ==> text::replaced(from_group(), pattern, with)
            == from_group(),
        pattern[1] == 'D' ==> text::replaced(from_user(), pattern, with) == from_user(),
{
    lemma_literals();
    let none = Seq::<char>::empty();
    lemma_replaced_after(from_commands(), none, pattern, with);
    assert(from_commands() + none =~= from_commands());
    assert(from_commands() + text::replaced(none, pattern, with) =~= from_commands());
    if pattern[1] != 'R' {
        lemma_replaced_other(
            "\nrequire_ownership="@,
            "%REQUIRE_OWNERSHIP%"@,
            from_commands(),
            pattern,
            with,
        );
        if pattern[1] != 'P' {
            lemma_replaced_other(
                "\npermissions="@,
                "%PERMISSIONS%"@,
                from_ownership(),
                pattern,
                with,
            );
            if pattern[1] != 'G' {
                lemma_replaced_other("\ngroup="@, "%GROUP%"@, from_permissions(), pattern, with);
                if pattern[1] != 'U' {
                    lemma_replaced_other("\"\nuser="@, "%USER%"@, from_group(), pattern, with);
                }
            }
        }
    }
}

proof fn lemma_no_percent_add(a: Seq<char>, b: Seq<char>)
    requires
        no_percent(a),
        no_percent(b),
    ensures
        no_percent(a + b),
{
    let all = a + b;
    assert forall|i: int| 0 <= i < all.len() implies #[trigger] all[i] != '%' by {
        if i < a.len() {
            assert(all[i] == a[i]);
        } else {
            assert(all[i] == b[i - a.len()]);
        }
    }
}

/// A replacement behind a value that was filled in before.
proof fn lemma_fill(
    front: Seq<char>,
    value: Seq<char>,
    part: Seq<char>,
    pattern: Seq<char>,
    rest: Seq<char>,
    with: Seq<char>,
)
    requires
        no_percent(front),
        no_percent(value),
        no_percent(part),
        is_placeholder(pattern),
        text::replaced(rest, pattern, with) == rest,
    ensures
        text::replaced(front + value + (part + pattern + rest), pattern, with) == front + value
            + part + with + rest,
        no_percent(front + value + part),
{
    lemma_no_percent_add(front, value);
    lemma_no_percent_add(front + value, part);
    lemma_replaced_one(front + value + part, rest, pattern, with);
    assert(front + value + (part + pattern + rest) =~= front + value + part + pattern + rest);
}

proof fn lemma_filled(
    destination: Seq<char>,
    user: Seq<char>,
    group: Seq<char>,
    permissions: Seq<char>,
    ownership: Seq<char>,
)
    requires
        no_percent(destination),
        no_percent(user),
        no_percent(group),
        no_percent(permissions),
        no_percent(ownership),
    ensures
        filled(SCRIPT_TEMPLATE@, destination, user, group, permissions, ownership) == script_with(
            destination,
            user,
            group,
            permissions,
            ownership,
        ).push('\n'),
        no_percent(script_with(destination, user, group, permissions, ownership)),
{
    lemma_literals();
    lemma_commands();
    let f1 = "set -eu\n\ndestination=\""@;
    lemma_rest_unchanged("%DESTINATION%"@, destination);
    lemma_replaced_one(f1, from_user(), "%DESTINATION%"@, destination);
    let f2 = f1 + destination + "\"\nuser="@;
    lemma_rest_unchanged("%USER%"@, user);
    lemma_fill(f1, destination, "\"\nuser="@, "%USER%"@, from_group(), user);
    let f3 = f2 + user + "\ngroup="@;
    lemma_rest_unchanged("%GROUP%"@, group);
    lemma_fill(f2, user, "\ngroup="@, "%GROUP%"@, from_permissions(), group);
    let f4 = f3 + group + "\npermissions="@;
    lemma_rest_unchanged("%PERMISSIONS%"@, permissions);
    lemma_fill(f3, group, "\npermissions="@, "%PERMISSIONS%"@, from_ownership(), permissions);
    let f5 = f4 + permissions + "\nrequire_ownership="@;
    lemma_rest_unchanged("%REQUIRE_OWNERSHIP%"@, ownership);
    lemma_fill(
        f4,
        permissions,
        "\nrequire_ownership="@,
        "%REQUIRE_OWNERSHIP%"@,
        from_commands(),
        ownership,
    );
    lemma_no_percent_add(f5, ownership);
    lemma_no_percent_add(f5 + ownership, script_commands());
    assert(f5 + ownership + from_commands() =~= (f5 + ownership + script_commands()).push('\n'));
}

/// The script of a key assigns each value to its variable and changes nothing
/// else of the template, and no placeholder is left. The destination is taken
/// as it is, and the owner and the permissions are escaped.
///
/// The values must have no percent signs: one that spells a placeholder would
/// be filled in in turn.
pub proof fn law_script_fills_each_placeholder(
    destination: Seq<char>,
    user: Seq<char>,
    group: Seq<char>,
    permissions: Seq<char>,
    require_ownership: bool,
)
    requires
        no_percent(destination),
        no_percent(user),
        no_percent(group),
        no_percent(permissions),
    ensures
        script(destination, user, group, permissions, require_ownership) == script_with(
            destination,
            shell::escaped(user),
            shell::escaped(group),
            shell::escaped(permissions),
            if require_ownership {
                "1"@
            } else {
                ""@
            },
        ),
        no_percent(script(destination, user, group, permissions, require_ownership)),
{
    let (u, g, p) = (shell::escaped(user), shell::escaped(group), shell::escaped(permissions));
    let o = if require_ownership {
        "1"@
    } else {
        ""@
    };
    lemma_escaped_no_percent(user);
    lemma_escaped_no_percent(group);
    lemma_escaped_no_percent(permissions);
    reveal_strlit("1");
    reveal_strlit("");
    lemma_filled(destination, u, g, p, o);
    lemma_commands();
    let done = script_with(destination, u, g, p, o);
    assert(text::without_final_newlines(done) == done);
    assert(done.push('\n').drop_last() =~= done);
}

/// The script of a key has neither single quotes nor exclamation marks,
/// provided that the destination has none and that the owner and the
/// permissions need no quoting.
///
/// Escaping the script for a shell then takes single quotes around it and
/// nothing else.
pub proof fn law_script_has_no_quote_or_bang(
    destination: Seq<char>,
    user: Seq<char>,
    group: Seq<char>,
    permissions: Seq<char>,
    require_ownership: bool,
)
    requires
        !shell::has_quote_or_bang(destination),
        shell::is_plain_word(user),
        shell::is_plain_word(group),
        shell::is_plain_word(permissions),
    ensures
        ({
            let text = script(destination, user, group, permissions, require_ownership);
            &&& !shell::has_quote_or_bang(text)
            &&& shell::escaped(text) == text || shell::escaped(text) == seq!['\''] + text
                + seq!['\'']
        }),
{
    law_template_has_no_quote_or_bang();
    lemma_plain_clean(user);
    lemma_plain_clean(group);
    lemma_plain_clean(permissions);
    let ownership = if require_ownership {
        "1"@
    } else {
        ""@
    };
    reveal_strlit("1");
    reveal_strlit("");
    let s1 = text::replaced(SCRIPT_TEMPLATE@, "%DESTINATION%"@, destination);
    lemma_replaced_clean(SCRIPT_TEMPLATE@, "%DESTINATION%"@, destination);
    let s2 = text::replaced(s1, "%USER%"@, user);
    lemma_replaced_clean(s1, "%USER%"@, user);
    let s3 = text::replaced(s2, "%GROUP%"@, group);
    lemma_replaced_clean(s2, "%GROUP%"@, group);
    let s4 = text::replaced(s3, "%PERMISSIONS%"@, permissions);
    lemma_replaced_clean(s3, "%PERMISSIONS%"@, permissions);
    let s5 = text::replaced(s4, "%REQUIRE_OWNERSHIP%"@, ownership);
    lemma_replaced_clean(s4, "%REQUIRE_OWNERSHIP%"@, ownership);
    lemma_trimmed_clean(s5);
    shell::law_escape_without_backslash(text::without_final_newlines(s5));
}

/// An upload succeeds exactly if both streams of the uploader could be read
/// and it exited with code 0. Otherwise the first thing that failed is
/// reported: its output, its error output, waiting for it, or its exit.
pub proof fn law_an_upload_reports_its_first_failure(
    stdout: Result<(), ErrorModel>,
    stderr: Result<(), ErrorModel>,
    exit: Result<ExitStatus, std::io::Error>,
)
    ensures
        ({
            let outcome = upload_outcome(stdout, stderr, exit);
            &&& outcome is Ok <==> stdout is Ok && stderr is Ok && exit == Ok::<
                ExitStatus,
                std::io::Error,
            >(ExitStatus::Code(0))
            &&& stdout is Err ==> outcome == stdout
            &&& stdout is Ok && stderr is Err ==> outcome == stderr
            &&& stdout is Ok && stderr is Ok ==> match exit {
                Err(error) => outcome == Err::<(), ErrorModel>(ErrorModel::IoError { error }),
                Ok(ExitStatus::Code(exit_code)) => exit_code != 0 ==> outcome == Err::<
                    (),
                    ErrorModel,
                >(ErrorModel::ChildFailure { exit_code }),
                Ok(ExitStatus::Signal(signal)) => outcome == Err::<(), ErrorModel>(
                    ErrorModel::ChildKilled { signal },
                ),
            }
        }),
{
}

} // verus!
