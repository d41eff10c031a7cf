use vstd::prelude::*;
use crate::format::Output;
use crate::text::same_text;

verus! {

/// A variable that is not set, or not valid Unicode, reads as `default`.
pub open spec fn var_or(value: Option<&str>, default: Seq<char>) -> Seq<char> {
    match value {
        Some(v) => v@,
        None => default,
    }
}

/// Whether output gets colored, following the CLICOLOR convention: never when
/// `NO_COLOR` is set; always when `CLICOLOR_FORCE` is set to anything but `0`;
/// otherwise on a terminal unless `CLICOLOR` is `0`.
pub open spec fn wants_color(
    no_color_set: bool,
    clicolor: Option<&str>,
    clicolor_force: Option<&str>,
    stdout_is_tty: bool,
) -> bool {
    !no_color_set && ((var_or(clicolor, "1"@) != "0"@ && stdout_is_tty) || var_or(
        clicolor_force,
        "0"@,
    ) != "0"@)
}

/// Decides from the environment's values whether output gets colored.
pub fn color_enabled(
    no_color_set: bool,
    clicolor: Option<&str>,
    clicolor_force: Option<&str>,
    stdout_is_tty: bool,
) -> (r: bool)
    ensures
        r == wants_color(no_color_set, clicolor, clicolor_force, stdout_is_tty),
{
    if no_color_set {
        return false;
    }
    let color_var = match clicolor {
        Some(v) => v,
        None => "1",
    };
    let force_color = match clicolor_force {
        Some(v) => v,
        None => "0",
    };
    (!same_text(color_var, "0") && stdout_is_tty) || !same_text(force_color, "0")
}

/// The layout that the value of `--output` selects; an unknown value is refused
/// with a message that names it.
pub open spec fn output_of(value: Option<&str>) -> Result<Output, Seq<char>> {
    match value {
        None => Ok(Output::Unknown),
        Some(v) => if v@ == "normal"@ {
            Ok(Output::Normal)
        } else if v@ == "short"@ {
            Ok(Output::Short)
        } else {
            Err("unsupported output mode '"@ + v@ + "'"@)
        },
    }
}

impl Output {
    /// Reads the value given to `--output`, if one was.
    pub fn from_option(value: Option<&str>) -> (r: Result<Output, String>)
        ensures
            match r {
                Ok(o) => output_of(value) == Ok::<Output, Seq<char>>(o),
                Err(e) => output_of(value) == Err::<Output, Seq<char>>(e@),
            },
    {
        match value {
            None => Ok(Output::Unknown),
            Some(v) => {
                if same_text(v, "normal") {
                    Ok(Output::Normal)
                } else if same_text(v, "short") {
                    Ok(Output::Short)
                } else {
                    let mut e = String::from_str("unsupported output mode '");
                    e.append(v);
                    e.append("'");
                    Err(e)
                }
            },
        }
    }
}

/// The version report: one line of text, or a JSON object.
pub open spec fn version_text(
    program: Seq<char>,
    version: Seq<char>,
    hash: Seq<char>,
    build_at: Seq<char>,
    as_json: bool,
) -> Seq<char> {
    if as_json {
        "{\"program\":\""@ + program + "\",\"version\":\""@ + version + "\",\"hash\":\""@ + hash
            + "\",\"build_at\":\""@ + build_at + "\"}"@
    } else {
        program + " version "@ + version + " build "@ + hash + " built at "@ + build_at
    }
}

/// Builds the version report of the program.
pub fn version_report(program: &str, version: &str, hash: &str, build_at: &str, as_json: bool) -> (r:
    String)
    ensures
        r@ == version_text(program@, version@, hash@, build_at@, as_json),
{
    if as_json {
        let mut r = String::from_str("{\"program\":\"");
        r.append(program);
        r.append("\",\"version\":\"");
        r.append(version);
        r.append("\",\"hash\":\"");
        r.append(hash);
        r.append("\",\"build_at\":\"");
        r.append(build_at);
        r.append("\"}");
        r
    } else {
        let mut r = String::from_str(program);
        r.append(" version ");
        r.append(version);
        r.append(" build ");
        r.append(hash);
        r.append(" built at ");
        r.append(build_at);
        r
    }
}

} // verus!
