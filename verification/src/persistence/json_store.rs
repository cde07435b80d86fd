use vstd::prelude::*;
use crate::text::{decimal_string, decimal_text, decimal_value, is_decimal_digit, lemma_decimal_text};

verus! {

/// `base` joined with `name`, as `Path::join` does it on Unix: an
/// absolute `name` replaces `base`; otherwise a `/` goes between them
/// unless `base` is empty or already ends in one.
pub open spec fn path_join(base: Seq<char>, name: Seq<char>) -> Seq<char> {
    if name.len() > 0 && name[0] == '/' {
        name
    } else if base.len() == 0 || base.last() == '/' {
        base + name
    } else {
        base + seq!['/'] + name
    }
}

/// The configuration directory: `$XDG_CONFIG_HOME/wifichecker` when that
/// variable is set and not empty (the XDG rule treats an empty value as
/// unset), else `$HOME/.config/wifichecker`, with `.` standing for an
/// unset `HOME`.
pub open spec fn config_dir_text(xdg_config_home: Option<Seq<char>>, home: Option<Seq<char>>) -> Seq<
    char,
> {
    let base = match xdg_config_home {
        Some(x) if x.len() > 0 => x,
        _ => path_join(
            match home {
                Some(h) => h,
                None => "."@,
            },
            ".config"@,
        ),
    };
    path_join(base, "wifichecker"@)
}

/// `base` joined with `name`.
pub fn join_path(base: &str, name: &str) -> (p: String)
    ensures
        p@ == path_join(base@, name@),
{
    if name.unicode_len() > 0 && name.get_char(0) == '/' {
        return name.to_owned();
    }
    let mut p = base.to_owned();
    let n = base.unicode_len();
    if n > 0 && base.get_char(n - 1) != '/' {
        p.append("/");
        proof {
            reveal_strlit("/");
        }
    }
    p.append(name);
    p
}

/// The configuration directory for the given values of the
/// `XDG_CONFIG_HOME` and `HOME` environment variables.
pub fn config_dir(xdg_config_home: Option<&str>, home: Option<&str>) -> (p: String)
    ensures
        p@ == config_dir_text(
            match xdg_config_home {
                Some(x) => Some(x@),
                None => None,
            },
            match home {
                Some(h) => Some(h@),
                None => None,
            },
        ),
{
    let base = match xdg_config_home {
        Some(x) if x.unicode_len() > 0 => x.to_owned(),
        _ => {
            let h = match home {
                Some(h) => h,
                None => ".",
            };
            join_path(h, ".config")
        },
    };
    join_path(base.as_str(), "wifichecker")
}

/// The directory of the freehand drawings inside `config_dir`.
pub fn drawings_dir(config_dir: &str) -> (p: String)
    ensures
        p@ == path_join(config_dir@, "drawings"@),
{
    join_path(config_dir, "drawings")
}

/// Name of the drawing canvas of the floor at `floor_index`:
/// `floor_<index>.png`.
pub open spec fn canvas_file_name(floor_index: nat) -> Seq<char> {
    "floor_"@ + decimal_text(floor_index) + ".png"@
}

/// Law: the canvas file of the floor at index `i` is `floor_`, then the
/// decimal numeral of `i` (digits only, no leading zero, standing for
/// `i`), then `.png`.
pub proof fn lemma_canvas_file_name(i: nat)
    ensures
        canvas_file_name(i).len() > 10,
        canvas_file_name(i).take(6) == "floor_"@,
        canvas_file_name(i).skip(canvas_file_name(i).len() - 4) == ".png"@,
        forall|k: int|
            6 <= k < canvas_file_name(i).len() - 4 ==> is_decimal_digit(
                #[trigger] canvas_file_name(i)[k],
            ),
        canvas_file_name(i).len() > 11 ==> canvas_file_name(i)[6] != '0',
        decimal_value(canvas_file_name(i).subrange(6, canvas_file_name(i).len() - 4)) == i,
{
    reveal_strlit("floor_");
    reveal_strlit(".png");
    lemma_decimal_text(i);
    let d = decimal_text(i);
    let f = canvas_file_name(i);
    assert(f.take(6) =~= "floor_"@);
    assert(f.skip(f.len() - 4) =~= ".png"@);
    assert(f.subrange(6, f.len() - 4) =~= d);
    assert forall|k: int| 6 <= k < f.len() - 4 implies is_decimal_digit(#[trigger] f[k]) by {
        assert(f[k] == d[k - 6]);
    }
    assert(f.len() > 11 ==> f[6] == d[0]);
}

/// Law: floors at different indices save their drawings to different
/// files, whatever the drawings directory.
pub proof fn lemma_canvas_paths_distinct(drawings_dir: Seq<char>, i: nat, j: nat)
    requires
        i != j,
    ensures
        path_join(drawings_dir, canvas_file_name(i)) != path_join(drawings_dir, canvas_file_name(j)),
{
    lemma_canvas_file_name(i);
    lemma_canvas_file_name(j);
    reveal_strlit("floor_");
    let a = canvas_file_name(i);
    let b = canvas_file_name(j);
    assert(a[0] == a.take(6)[0]);
    assert(b[0] == b.take(6)[0]);
    let pre = if drawings_dir.len() == 0 || drawings_dir.last() == '/' {
        drawings_dir
    } else {
        drawings_dir + seq!['/']
    };
    assert(path_join(drawings_dir, a) == pre + a);
    assert(path_join(drawings_dir, b) == pre + b);
    if pre + a == pre + b {
        assert((pre + a).skip(pre.len() as int) =~= a);
        assert((pre + b).skip(pre.len() as int) =~= b);
        assert(a == b);
    }
}

/// Where the drawing canvas of the floor at `floor_index` is saved.
pub fn canvas_path(drawings_dir: &str, floor_index: usize) -> (p: String)
    ensures
        p@ == path_join(drawings_dir@, canvas_file_name(floor_index as nat)),
{
    let mut name = "floor_".to_owned();
    name.append(decimal_string(floor_index as u128).as_str());
    name.append(".png");
    join_path(drawings_dir, name.as_str())
}

/// Stores a project as a JSON file.
pub struct JsonStore;

impl JsonStore {
    /// The default project file inside `config_dir`.
    pub fn default_path(config_dir: &str) -> (p: String)
        ensures
            p@ == path_join(config_dir@, "project.json"@),
    {
        join_path(config_dir, "project.json")
    }
}

} // verus!
