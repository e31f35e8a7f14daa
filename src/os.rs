//! The commands through which the system is driven on macOS, built as plain
//! values: a program and its arguments. Running them is left to the caller.
use vstd::prelude::*;

use crate::text::{push_char, str_eq, to_string};

verus! {

/// A program to run and its arguments.
#[derive(Clone, Debug)]
pub struct ShellCommand {
    pub program: String,
    pub args: Vec<String>,
}

/// A user account of this computer.
#[derive(Clone, Debug)]
pub struct User {
    pub username: String,
    pub realname: String,
    pub id: u64,
    pub picture_base64: Option<String>,
    pub picture_mimetype: Option<String>,
}

/// A list held no element where one was wanted.
#[derive(Clone, Copy, Debug, PartialEq, Eq, Structural)]
pub struct NoElement;

/// Why an account record does not make a `User`.
#[derive(Clone, Copy, Debug, PartialEq, Eq, Structural)]
pub enum UserRecordError {
    /// The record holds no real name.
    NoRealName,
    /// The record holds no id.
    NoId,
    /// The id is not a decimal number that fits in 64 bits.
    InvalidId,
}

pub open spec fn is_digit(c: char) -> bool {
    '0' <= c && c <= '9'
}

/// The value of a string of decimal digits.
pub open spec fn decimal_value(s: Seq<char>) -> int
    decreases s.len(),
{
    if s.len() == 0 {
        0
    } else {
        decimal_value(s.drop_last()) * 10 + (s.last() as int - '0' as int)
    }
}

/// What `u64::from_str` makes of a text: an optional `+`, then at least one
/// decimal digit and nothing else, of a value that fits.
pub open spec fn parsed_u64(s: Seq<char>) -> Option<u64> {
    let digits = if s.len() > 0 && s[0] == '+' {
        s.drop_first()
    } else {
        s
    };
    if digits.len() > 0 && (forall|i: int| 0 <= i < digits.len() ==> is_digit(#[trigger] digits[i]))
        && decimal_value(digits) <= u64::MAX {
        Some(decimal_value(digits) as u64)
    } else {
        None
    }
}

/// Relies on std's `u64::from_str` (through `str::parse`), which accepts an
/// optional `+` followed by one or more ASCII digits, and fails on anything
/// else or on a value past `u64::MAX`.
#[verifier::external_body]
fn parse_u64(s: &str) -> (r: Option<u64>)
    ensures
        r == parsed_u64(s@),
{
    s.parse::<u64>().ok()
}

/// A user from the fields of its account record: the first real name, and the
/// first id read as a decimal number.
pub fn user_from_record(username: &str, realname: Vec<String>, id: Vec<String>) -> (r: Result<User, UserRecordError>)
    ensures
        realname@.len() == 0 ==> r == Err::<User, UserRecordError>(UserRecordError::NoRealName),
        realname@.len() > 0 && id@.len() == 0 ==> r == Err::<User, UserRecordError>(UserRecordError::NoId),
        realname@.len() > 0 && id@.len() > 0 ==> match parsed_u64(id@[0]@) {
            Some(n) => (r matches Ok(u) && u.username@ == username@ && u.realname@ == realname@[0]@ && u.id == n
                && u.picture_base64 is None && u.picture_mimetype is None),
            None => r == Err::<User, UserRecordError>(UserRecordError::InvalidId),
        },
{
    let realname = match get_only(realname) {
        Ok(n) => n,
        Err(_) => {
            return Err(UserRecordError::NoRealName);
        },
    };
    let id = match get_only(id) {
        Ok(i) => i,
        Err(_) => {
            return Err(UserRecordError::NoId);
        },
    };
    match parse_u64(id.as_str()) {
        Some(n) => Ok(
            User {
                username: to_string(username),
                realname,
                id: n,
                picture_base64: None,
                picture_mimetype: None,
            },
        ),
        None => Err(UserRecordError::InvalidId),
    }
}

pub open spec fn strings_view(v: Seq<String>) -> Seq<Seq<char>> {
    v.map_values(|s: String| s@)
}

pub open spec fn command_is(c: ShellCommand, program: Seq<char>, args: Seq<Seq<char>>) -> bool {
    c.program@ == program && strings_view(c.args@) == args
}

/// A normal account, not a built-in one (whose name starts with `_`).
pub open spec fn normal_user(s: Seq<char>) -> bool {
    s.len() > 0 && s[0] != '_'
}

/// One of the special accounts of the system.
pub open spec fn special_account(s: Seq<char>) -> bool {
    s == "daemon"@ || s == "nobody"@ || s == "root"@ || s == "sysadmin"@
}

/// The text with every double quote removed.
pub open spec fn without_quotes(s: Seq<char>) -> Seq<char>
    decreases s.len(),
{
    if s.len() == 0 {
        Seq::empty()
    } else if s.last() == '"' {
        without_quotes(s.drop_last())
    } else {
        without_quotes(s.drop_last()).push(s.last())
    }
}

pub open spec fn notification_script(title: Seq<char>, message: Seq<char>) -> Seq<char> {
    "display notification \""@ + without_quotes(message) + "\" sound name \"Submarine\" with title \""@
        + without_quotes(title) + "\""@
}

pub open spec fn alert_script(title: Seq<char>, message: Seq<char>) -> Seq<char> {
    "display alert\""@ + without_quotes(title) + "\" message \""@ + without_quotes(message)
        + "\" as critical"@
}

/// The lines of a text, split at each newline: a text without one is a
/// single line, and a trailing newline ends in an empty line.
pub open spec fn split_lines(s: Seq<char>) -> Seq<Seq<char>>
    decreases s.len(),
{
    if s.len() == 0 {
        seq![Seq::empty()]
    } else {
        let prev = split_lines(s.drop_last());
        if s.last() == '\n' {
            prev.push(Seq::empty())
        } else {
            prev.update(prev.len() - 1, prev.last().push(s.last()))
        }
    }
}

/// A name that user enumeration reports: a normal account, not a special one.
pub open spec fn listed_user(name: Seq<char>) -> bool {
    normal_user(name) && !special_account(name)
}

/// The names among `lines` that user enumeration reports, in order.
pub open spec fn listed_users(lines: Seq<Seq<char>>) -> Seq<Seq<char>>
    decreases lines.len(),
{
    if lines.len() == 0 {
        Seq::empty()
    } else if listed_user(lines.last()) {
        listed_users(lines.drop_last()).push(lines.last())
    } else {
        listed_users(lines.drop_last())
    }
}

proof fn lemma_split_lines_nonempty(s: Seq<char>)
    ensures
        split_lines(s).len() >= 1,
    decreases s.len(),
{
    if s.len() > 0 {
        lemma_split_lines_nonempty(s.drop_last());
    }
}

proof fn lemma_listed_users_push(lines: Seq<Seq<char>>, line: Seq<char>)
    ensures
        listed_users(lines.push(line)) == if listed_user(line) {
            listed_users(lines).push(line)
        } else {
            listed_users(lines)
        },
{
    assert(lines.push(line).drop_last() =~= lines);
}

/// The extension of the file name that ends a path, as `Path::extension`
/// finds it.
pub uninterp spec fn extension_of(path: Seq<char>) -> Option<Seq<char>>;

/// The text in lower case, as `str::to_lowercase` maps it.
pub uninterp spec fn lower_of(s: Seq<char>) -> Seq<char>;

pub open spec fn opt_view(o: Option<String>) -> Option<Seq<char>> {
    match o {
        Some(s) => Some(s@),
        None => None,
    }
}

/// The MIME type of an image file with the given lower-case extension.
pub open spec fn image_mimetype_of(ext: Seq<char>) -> Option<Seq<char>> {
    if ext == "tif"@ {
        Some("image/tiff"@)
    } else if ext == "gif"@ {
        Some("image/gif"@)
    } else if ext == "png"@ {
        Some("image/png"@)
    } else if ext == "jpg"@ || ext == "jpeg"@ || ext == "jfif"@ || ext == "pjpeg"@ || ext == "pjp"@ {
        Some("image/jpeg"@)
    } else if ext == "webp"@ {
        Some("image/webp"@)
    } else {
        None
    }
}

/// Relies on std's `Path::extension`: the extension of the path's file name,
/// a function of the path alone.
#[verifier::external_body]
fn path_extension(path: &str) -> (r: Option<String>)
    ensures
        opt_view(r) == extension_of(path@),
{
    std::path::Path::new(path).extension().and_then(|e| e.to_str()).map(|e| e.to_owned())
}

/// Relies on std's `str::to_lowercase`: the lower-case form of the text, a
/// function of its characters alone.
#[verifier::external_body]
fn lowercase(s: &str) -> (r: String)
    ensures
        r@ == lower_of(s@),
{
    s.to_lowercase()
}

/// The MIME type of an image file by its extension, which must already be in
/// lower case.
pub fn mimetype_for_extension(ext: &str) -> (r: Option<String>)
    ensures
        opt_view(r) == image_mimetype_of(ext@),
{
    if str_eq(ext, "tif") {
        Some(to_string("image/tiff"))
    } else if str_eq(ext, "gif") {
        Some(to_string("image/gif"))
    } else if str_eq(ext, "png") {
        Some(to_string("image/png"))
    } else if str_eq(ext, "jpg") || str_eq(ext, "jpeg") || str_eq(ext, "jfif") || str_eq(ext, "pjpeg")
        || str_eq(ext, "pjp") {
        Some(to_string("image/jpeg"))
    } else if str_eq(ext, "webp") {
        Some(to_string("image/webp"))
    } else {
        None
    }
}

/// The MIME type of an image file, by the extension of its path in any case.
pub fn get_image_mimetype(path: &str) -> (r: Option<String>)
    ensures
        opt_view(r) == match extension_of(path@) {
            Some(e) => image_mimetype_of(lower_of(e)),
            None => None,
        },
{
    match path_extension(path) {
        Some(ext) => {
            let lower = lowercase(ext.as_str());
            mimetype_for_extension(lower.as_str())
        },
        None => None,
    }
}

/// Is this a normal username, and not a built-in account (starting with `_`)?
pub fn is_normal_user(s: &str) -> (r: bool)
    ensures
        r == normal_user(s@),
{
    if s.unicode_len() == 0 {
        false
    } else {
        s.get_char(0) != '_'
    }
}

/// Is this a special account (e.g. root, daemon)?
pub fn is_special_account(s: &str) -> (r: bool)
    ensures
        r == special_account(s@),
{
    str_eq(s, "daemon") || str_eq(s, "nobody") || str_eq(s, "root") || str_eq(s, "sysadmin")
}

/// The first element of a list.
pub fn get_only(vec: Vec<String>) -> (r: Result<String, NoElement>)
    ensures
        vec@.len() == 0 ==> r == Err::<String, NoElement>(NoElement),
        vec@.len() > 0 ==> (r matches Ok(s) && s@ == vec@[0]@),
{
    if vec.len() == 0 {
        Err(NoElement)
    } else {
        Ok(vec[0].clone())
    }
}

/// Removes double quotes, so that the text can stand inside a quoted string
/// of a script.
pub fn santize_for_quotes(s: &str) -> (r: String)
    ensures
        r@ == without_quotes(s@),
{
    let n = s.unicode_len();
    let mut r = String::new();
    let mut i: usize = 0;
    while i < n
        invariant
            n == s@.len(),
            i <= n,
            r@ == without_quotes(s@.subrange(0, i as int)),
        decreases n - i,
    {
        let c = s.get_char(i);
        assert(s@.subrange(0, i as int + 1).drop_last() =~= s@.subrange(0, i as int));
        if c != '"' {
            push_char(&mut r, c);
        }
        i = i + 1;
    }
    assert(s@.subrange(0, n as int) =~= s@);
    r
}

/// The accounts listed in the output of `dscl . -list /Users`, one per line,
/// without built-in and special accounts.
pub fn parse_usernames(output: &str) -> (r: Vec<String>)
    ensures
        strings_view(r@) == listed_users(split_lines(output@)),
{
    let n = output.unicode_len();
    let mut names: Vec<String> = Vec::new();
    let mut current = String::new();
    let mut i: usize = 0;
    proof {
        assert(output@.subrange(0, 0) =~= Seq::<char>::empty());
    }
    while i < n
        invariant
            n == output@.len(),
            i <= n,
            split_lines(output@.subrange(0, i as int)).len() >= 1,
            current@ == split_lines(output@.subrange(0, i as int)).last(),
            strings_view(names@) == listed_users(split_lines(output@.subrange(0, i as int)).drop_last()),
        decreases n - i,
    {
        let ghost prefix = output@.subrange(0, i as int);
        let ghost lines = split_lines(prefix);
        let c = output.get_char(i);
        assert(output@.subrange(0, i as int + 1).drop_last() =~= prefix);
        proof {
            lemma_split_lines_nonempty(output@.subrange(0, i as int + 1));
        }
        if c == '\n' {
            proof {
                lemma_listed_users_push(lines.drop_last(), current@);
                assert(lines.drop_last().push(current@) =~= lines);
                assert(lines.push(Seq::empty()).drop_last() =~= lines);
            }
            if is_normal_user(current.as_str()) && !is_special_account(current.as_str()) {
                let ghost before = names@;
                names.push(current);
                assert(strings_view(names@) =~= strings_view(before).push(current@));
            }
            current = String::new();
        } else {
            push_char(&mut current, c);
            assert(lines.update(lines.len() - 1, lines.last().push(c)).drop_last() =~= lines.drop_last());
        }
        i = i + 1;
    }
    let ghost lines = split_lines(output@);
    assert(output@.subrange(0, n as int) =~= output@);
    proof {
        lemma_listed_users_push(lines.drop_last(), current@);
        assert(lines.drop_last().push(current@) =~= lines);
    }
    if is_normal_user(current.as_str()) && !is_special_account(current.as_str()) {
        let ghost before = names@;
        names.push(current);
        assert(strings_view(names@) =~= strings_view(before).push(current@));
    }
    names
}

/// Lists the accounts of this computer, one name per line.
pub fn list_users_query() -> (r: ShellCommand)
    ensures
        command_is(r, "dscl"@, seq!["."@, "-list"@, "/Users"@]),
{
    let args = vec![to_string("."), to_string("-list"), to_string("/Users")];
    let r = command("dscl", args);
    assert(strings_view(r.args@) =~= seq!["."@, "-list"@, "/Users"@]);
    r
}

/// Reads the record of one account, as a property list.
pub fn user_record_query(username: &str) -> (r: ShellCommand)
    ensures
        command_is(r, "dscl"@, seq!["-plist"@, "."@, "read"@, "/Users/"@ + username@]),
{
    let args = vec![to_string("-plist"), to_string("."), to_string("read"), concat("/Users/", username)];
    let r = command("dscl", args);
    assert(strings_view(r.args@) =~= seq!["-plist"@, "."@, "read"@, "/Users/"@ + username@]);
    r
}

fn command(program: &str, args: Vec<String>) -> (r: ShellCommand)
    ensures
        r.program@ == program@,
        r.args@ == args@,
{
    ShellCommand { program: to_string(program), args }
}

fn concat(a: &str, b: &str) -> (r: String)
    ensures
        r@ == a@ + b@,
{
    let mut r = to_string(a);
    r.append(b);
    r
}

/// Sets the password of a user; the old one is needed where the account
/// has one.
pub fn change_password(username: &str, old_password: Option<&str>, new_password: &str) -> (r: ShellCommand)
    ensures
        command_is(
            r,
            "dscl"@,
            match old_password {
                Some(o) => seq!["."@, "passwd"@, "/Users/"@ + username@, o@, new_password@],
                None => seq!["."@, "passwd"@, "/Users/"@ + username@, new_password@],
            },
        ),
{
    let user_path = concat("/Users/", username);
    let mut options: Vec<String> = Vec::new();
    options.push(to_string("."));
    options.push(to_string("passwd"));
    options.push(user_path);
    if let Some(old_password) = old_password {
        options.push(to_string(old_password));
    }
    options.push(to_string(new_password));
    let r = command("dscl", options);
    assert(strings_view(r.args@) =~= match old_password {
        Some(o) => seq!["."@, "passwd"@, "/Users/"@ + username@, o@, new_password@],
        None => seq!["."@, "passwd"@, "/Users/"@ + username@, new_password@],
    });
    r
}

/// Looks up the numeric id of a user.
pub fn user_id_query(username: &str) -> (r: ShellCommand)
    ensures
        command_is(r, "id"@, seq!["-u"@, username@]),
{
    let args = vec![to_string("-u"), to_string(username)];
    let r = command("id", args);
    assert(strings_view(r.args@) =~= seq!["-u"@, username@]);
    r
}

/// Logs the user with the given numeric id out of this computer immediately.
pub fn boot_user_out(user_id: &str) -> (r: ShellCommand)
    ensures
        command_is(r, "launchctl"@, seq!["bootout"@, "user/"@ + user_id@]),
{
    let args = vec![to_string("bootout"), concat("user/", user_id)];
    let r = command("launchctl", args);
    assert(strings_view(r.args@) =~= seq!["bootout"@, "user/"@ + user_id@]);
    r
}

fn osascript(script: String) -> (r: ShellCommand)
    ensures
        command_is(r, "osascript"@, seq!["-e"@, script@]),
{
    let args = vec![to_string("-e"), script];
    let r = command("osascript", args);
    assert(strings_view(r.args@) =~= seq!["-e"@, script@]);
    r
}

/// Shows a notification to the user logged in now. It only appears on the
/// screen for a moment.
pub fn show_notification(title: &str, message: &str) -> (r: ShellCommand)
    ensures
        command_is(r, "osascript"@, seq!["-e"@, notification_script(title@, message@)]),
{
    let message_s = santize_for_quotes(message);
    let title_s = santize_for_quotes(title);
    let mut script = to_string("display notification \"");
    script.append(message_s.as_str());
    script.append("\" sound name \"Submarine\" with title \"");
    script.append(title_s.as_str());
    script.append("\"");
    osascript(script)
}

/// Speaks a message aloud.
pub fn say(message: &str) -> (r: ShellCommand)
    ensures
        command_is(r, "say"@, seq![message@]),
{
    let args = vec![to_string(message)];
    let r = command("say", args);
    assert(strings_view(r.args@) =~= seq![message@]);
    r
}

/// Shows a critical alert to the user logged in now.
pub fn show_alert(title: &str, message: &str) -> (r: ShellCommand)
    ensures
        command_is(r, "osascript"@, seq!["-e"@, alert_script(title@, message@)]),
{
    let message_s = santize_for_quotes(message);
    let title_s = santize_for_quotes(title);
    let mut script = to_string("display alert\"");
    script.append(title_s.as_str());
    script.append("\" message \"");
    script.append(message_s.as_str());
    script.append("\" as critical");
    osascript(script)
}

/// Shows a message on the login screen. With `force` the login window is
/// restarted, as it does not show the new text before.
pub fn show_loginscreen_message(message: &str, force: bool) -> (r: Vec<ShellCommand>)
    ensures
        r@.len() == if force { 2int } else { 1int },
        command_is(
            r@[0],
            "defaults"@,
            seq!["write"@, "/Library/Preferences/com.apple.loginwindow"@, "LoginwindowText"@, message@],
        ),
        force ==> command_is(r@[1], "killall"@, seq!["-9"@, "loginwindow"@]),
{
    let args = vec![
        to_string("write"),
        to_string("/Library/Preferences/com.apple.loginwindow"),
        to_string("LoginwindowText"),
        to_string(message),
    ];
    let write = command("defaults", args);
    assert(strings_view(write.args@) =~= seq![
        "write"@,
        "/Library/Preferences/com.apple.loginwindow"@,
        "LoginwindowText"@,
        message@,
    ]);
    let mut r = vec![write];
    if force {
        let kill = command("killall", vec![to_string("-9"), to_string("loginwindow")]);
        assert(strings_view(kill.args@) =~= seq!["-9"@, "loginwindow"@]);
        r.push(kill);
    }
    r
}

} // verus!
