use vstd::prelude::*;

verus! {

/// The editor families whose command line this library knows.
#[derive(Debug, Clone)]
pub enum EditorKind {
    // Terminal editors
    Vi,
    Vim,
    Nvim,
    Emacs,
    Nano,
    Pico,
    Helix,
    Kakoune,
    // Graphical editors
    Code,
    Atom,
    Gvim,
    Sublime,
    TextMate,
    /// Any other program, with the name it was given.
    UnknownEditor(String),
}

/// The well-known family that `name` is an alias of, if any (exact,
/// case-sensitive match).
pub open spec fn known_kind(name: Seq<char>) -> Option<EditorKind> {
    if name == "vi"@ {
        Some(EditorKind::Vi)
    } else if name == "vim"@ {
        Some(EditorKind::Vim)
    } else if name == "nvim"@ {
        Some(EditorKind::Nvim)
    } else if name == "emacs"@ {
        Some(EditorKind::Emacs)
    } else if name == "nano"@ {
        Some(EditorKind::Nano)
    } else if name == "pico"@ {
        Some(EditorKind::Pico)
    } else if name == "hx"@ {
        Some(EditorKind::Helix)
    } else if name == "kak"@ {
        Some(EditorKind::Kakoune)
    } else if name == "code"@ || name == "vscode"@ {
        Some(EditorKind::Code)
    } else if name == "atom"@ {
        Some(EditorKind::Atom)
    } else if name == "gvim"@ {
        Some(EditorKind::Gvim)
    } else if name == "subl"@ || name == "sublime"@ {
        Some(EditorKind::Sublime)
    } else if name == "mate"@ {
        Some(EditorKind::TextMate)
    } else {
        None
    }
}

/// The kind that a name resolves to: a well-known family, or else
/// `UnknownEditor` carrying the name itself.
pub open spec fn kind_named(name: String) -> EditorKind {
    match known_kind(name@) {
        Some(k) => k,
        None => EditorKind::UnknownEditor(name),
    }
}

/// The canonical short name of a kind; an unknown editor's own name.
pub open spec fn display_of(k: EditorKind) -> Seq<char> {
    match k {
        EditorKind::Vi => "vi"@,
        EditorKind::Vim => "vim"@,
        EditorKind::Nvim => "nvim"@,
        EditorKind::Emacs => "emacs"@,
        EditorKind::Nano => "nano"@,
        EditorKind::Pico => "pico"@,
        EditorKind::Helix => "hx"@,
        EditorKind::Kakoune => "kak"@,
        EditorKind::Code => "code"@,
        EditorKind::Atom => "atom"@,
        EditorKind::Gvim => "gvim"@,
        EditorKind::Sublime => "subl"@,
        EditorKind::TextMate => "mate"@,
        EditorKind::UnknownEditor(name) => name@,
    }
}

/// The character of a decimal digit.
pub open spec fn digit_char(d: nat) -> char {
    if d == 0 {
        '0'
    } else if d == 1 {
        '1'
    } else if d == 2 {
        '2'
    } else if d == 3 {
        '3'
    } else if d == 4 {
        '4'
    } else if d == 5 {
        '5'
    } else if d == 6 {
        '6'
    } else if d == 7 {
        '7'
    } else if d == 8 {
        '8'
    } else {
        '9'
    }
}

/// The decimal notation of `n`, without leading zeros.
pub open spec fn decimal(n: nat) -> Seq<char>
    decreases n,
{
    if n < 10 {
        seq![digit_char(n)]
    } else {
        decimal(n / 10).push(digit_char(n % 10))
    }
}

/// `"<path>:<line>:<column>"`.
pub open spec fn path_at(path: Seq<char>, line: nat, column: nat) -> Seq<char> {
    path + ":"@ + decimal(line) + ":"@ + decimal(column)
}

/// `"<line><sep><column>"`.
pub open spec fn line_col(line: nat, sep: Seq<char>, column: nat) -> Seq<char> {
    decimal(line) + sep + decimal(column)
}

/// The arguments that open `path` at `line` and `column` in an editor of kind `k`.
pub open spec fn editor_args(k: EditorKind, path: Seq<char>, wait: bool, line: nat, column: nat) -> Seq<
    Seq<char>,
> {
    match k {
        EditorKind::Vi | EditorKind::Vim | EditorKind::Nvim | EditorKind::Gvim => seq![
            "+call cursor("@ + line_col(line, ", "@, column) + ")"@,
            path,
        ],
        EditorKind::Emacs => seq!["+"@ + line_col(line, ":"@, column), path],
        EditorKind::Nano | EditorKind::Pico => seq!["+"@ + line_col(line, ","@, column), path],
        EditorKind::Helix | EditorKind::Sublime => seq![path_at(path, line, column)],
        EditorKind::Kakoune => seq![path, "+"@ + line_col(line, ":"@, column)],
        EditorKind::Code | EditorKind::Atom => (if wait {
            seq!["-w"@]
        } else {
            seq![]
        }) + seq!["--goto"@, path_at(path, line, column)],
        EditorKind::TextMate => seq!["--line"@, decimal(line), path],
        EditorKind::UnknownEditor(_) => seq![path],
    }
}

/// Whether a kind is one of the well-known families.
pub open spec fn is_known(k: EditorKind) -> bool {
    !(k is UnknownEditor)
}

/// Resolving the display name of a well-known kind gives that kind back.
pub proof fn lemma_display_round_trip(k: EditorKind)
    requires
        is_known(k),
    ensures
        known_kind(display_of(k)) == Some(k),
{
    reveal_strlit("vi");
    reveal_strlit("vim");
    reveal_strlit("nvim");
    reveal_strlit("emacs");
    reveal_strlit("nano");
    reveal_strlit("pico");
    reveal_strlit("hx");
    reveal_strlit("kak");
    reveal_strlit("code");
    reveal_strlit("vscode");
    reveal_strlit("atom");
    reveal_strlit("gvim");
    reveal_strlit("subl");
    reveal_strlit("sublime");
    reveal_strlit("mate");
    match k {
        EditorKind::Vi => {
            assert(known_kind(display_of(k)) == Some(k));
        },
        EditorKind::Vim => {
            assert("vim"@.len() != "vi"@.len());
            assert(known_kind(display_of(k)) == Some(k));
        },
        EditorKind::Nvim => {
            assert("nvim"@.len() != "vi"@.len());
            assert("nvim"@.len() != "vim"@.len());
            assert(known_kind(display_of(k)) == Some(k));
        },
        EditorKind::Emacs => {
            assert("emacs"@.len() != "vi"@.len());
            assert("emacs"@.len() != "vim"@.len());
            assert("emacs"@.len() != "nvim"@.len());
            assert(known_kind(display_of(k)) == Some(k));
        },
        EditorKind::Nano => {
            assert("nano"@.len() != "vi"@.len());
            assert("nano"@.len() != "vim"@.len());
            assert("nano"@[1] != "nvim"@[1]);
            assert("nano"@.len() != "emacs"@.len());
            assert(known_kind(display_of(k)) == Some(k));
        },
        EditorKind::Pico => {
            assert("pico"@.len() != "vi"@.len());
            assert("pico"@.len() != "vim"@.len());
            assert("pico"@[0] != "nvim"@[0]);
            assert("pico"@.len() != "emacs"@.len());
            assert("pico"@[0] != "nano"@[0]);
            assert(known_kind(display_of(k)) == Some(k));
        },
        EditorKind::Helix => {
            assert("hx"@[0] != "vi"@[0]);
            assert("hx"@.len() != "vim"@.len());
            assert("hx"@.len() != "nvim"@.len());
            assert("hx"@.len() != "emacs"@.len());
            assert("hx"@.len() != "nano"@.len());
            assert("hx"@.len() != "pico"@.len());
            assert(known_kind(display_of(k)) == Some(k));
        },
        EditorKind::Kakoune => {
            assert("kak"@.len() != "vi"@.len());
            assert("kak"@[0] != "vim"@[0]);
            assert("kak"@.len() != "nvim"@.len());
            assert("kak"@.len() != "emacs"@.len());
            assert("kak"@.len() != "nano"@.len());
            assert("kak"@.len() != "pico"@.len());
            assert("kak"@.len() != "hx"@.len());
            assert(known_kind(display_of(k)) == Some(k));
        },
        EditorKind::Code => {
            assert("code"@.len() != "vi"@.len());
            assert("code"@.len() != "vim"@.len());
            assert("code"@[0] != "nvim"@[0]);
            assert("code"@.len() != "emacs"@.len());
            assert("code"@[0] != "nano"@[0]);
            assert("code"@[0] != "pico"@[0]);
            assert("code"@.len() != "hx"@.len());
            assert("code"@.len() != "kak"@.len());
            assert(known_kind(display_of(k)) == Some(k));
        },
        EditorKind::Atom => {
            assert("atom"@.len() != "vi"@.len());
            assert("atom"@.len() != "vim"@.len());
            assert("atom"@[0] != "nvim"@[0]);
            assert("atom"@.len() != "emacs"@.len());
            assert("atom"@[0] != "nano"@[0]);
            assert("atom"@[0] != "pico"@[0]);
            assert("atom"@.len() != "hx"@.len());
            assert("atom"@.len() != "kak"@.len());
            assert("atom"@[0] != "code"@[0]);
            assert("atom"@.len() != "vscode"@.len());
            assert(known_kind(display_of(k)) == Some(k));
        },
        EditorKind::Gvim => {
            assert("gvim"@.len() != "vi"@.len());
            assert("gvim"@.len() != "vim"@.len());
            assert("gvim"@[0] != "nvim"@[0]);
            assert("gvim"@.len() != "emacs"@.len());
            assert("gvim"@[0] != "nano"@[0]);
            assert("gvim"@[0] != "pico"@[0]);
            assert("gvim"@.len() != "hx"@.len());
            assert("gvim"@.len() != "kak"@.len());
            assert("gvim"@[0] != "code"@[0]);
            assert("gvim"@.len() != "vscode"@.len());
            assert("gvim"@[0] != "atom"@[0]);
            assert(known_kind(display_of(k)) == Some(k));
        },
        EditorKind::Sublime => {
            assert("subl"@.len() != "vi"@.len());
            assert("subl"@.len() != "vim"@.len());
            assert("subl"@[0] != "nvim"@[0]);
            assert("subl"@.len() != "emacs"@.len());
            assert("subl"@[0] != "nano"@[0]);
            assert("subl"@[0] != "pico"@[0]);
            assert("subl"@.len() != "hx"@.len());
            assert("subl"@.len() != "kak"@.len());
            assert("subl"@[0] != "code"@[0]);
            assert("subl"@.len() != "vscode"@.len());
            assert("subl"@[0] != "atom"@[0]);
            assert("subl"@[0] != "gvim"@[0]);
            assert(known_kind(display_of(k)) == Some(k));
        },
        EditorKind::TextMate => {
            assert("mate"@.len() != "vi"@.len());
            assert("mate"@.len() != "vim"@.len());
            assert("mate"@[0] != "nvim"@[0]);
            assert("mate"@.len() != "emacs"@.len());
            assert("mate"@[0] != "nano"@[0]);
            assert("mate"@[0] != "pico"@[0]);
            assert("mate"@.len() != "hx"@.len());
            assert("mate"@.len() != "kak"@.len());
            assert("mate"@[0] != "code"@[0]);
            assert("mate"@.len() != "vscode"@.len());
            assert("mate"@[0] != "atom"@[0]);
            assert("mate"@[0] != "gvim"@[0]);
            assert("mate"@[0] != "subl"@[0]);
            assert("mate"@.len() != "sublime"@.len());
            assert(known_kind(display_of(k)) == Some(k));
        },
        EditorKind::UnknownEditor(_) => {},
    }
}

/// A name outside the alias table resolves to `UnknownEditor` with that name,
/// and an unknown editor is handed the path alone, with no positioning flag.
pub proof fn lemma_unknown_name_path_only(
    name: String,
    path: Seq<char>,
    wait: bool,
    line: nat,
    column: nat,
)
    requires
        known_kind(name@) is None,
    ensures
        kind_named(name) == EditorKind::UnknownEditor(name),
        editor_args(kind_named(name), path, wait, line, column) == seq![path],
{
}

/// The arguments depend on their inputs alone: any two results that meet the
/// contract of [`EditorKind::get_editor_args`] for the same inputs are equal.
pub proof fn lemma_args_deterministic(
    k: EditorKind,
    path: Seq<char>,
    wait: bool,
    line: nat,
    column: nat,
    r1: Seq<String>,
    r2: Seq<String>,
)
    requires
        r1.map_values(|a: String| a@) == editor_args(k, path, wait, line, column),
        r2.map_values(|a: String| a@) == editor_args(k, path, wait, line, column),
    ensures
        r1.map_values(|a: String| a@) == r2.map_values(|a: String| a@),
        r1.len() == r2.len(),
        forall|i: int| 0 <= i < r1.len() ==> (#[trigger] r1[i])@ == r2[i]@,
{
    assert(r1.map_values(|a: String| a@).len() == r1.len());
    assert(r2.map_values(|a: String| a@).len() == r2.len());
    assert forall|i: int| 0 <= i < r1.len() implies (#[trigger] r1[i])@ == r2[i]@ by {
        assert(r1.map_values(|a: String| a@)[i] == r2.map_values(|a: String| a@)[i]);
    }
}

/// Whether two texts are the same.
fn same_text(a: &str, b: &str) -> (r: bool)
    ensures
        r == (a@ == b@),
{
    String::from_str(a) == String::from_str(b)
}

/// The text of a decimal digit.
fn digit_str(d: usize) -> (r: &'static str)
    requires
        d < 10,
    ensures
        r@ == seq![digit_char(d as nat)],
{
    proof {
        reveal_strlit("0");
        reveal_strlit("1");
        reveal_strlit("2");
        reveal_strlit("3");
        reveal_strlit("4");
        reveal_strlit("5");
        reveal_strlit("6");
        reveal_strlit("7");
        reveal_strlit("8");
        reveal_strlit("9");
    }
    if d == 0 {
        "0"
    } else if d == 1 {
        "1"
    } else if d == 2 {
        "2"
    } else if d == 3 {
        "3"
    } else if d == 4 {
        "4"
    } else if d == 5 {
        "5"
    } else if d == 6 {
        "6"
    } else if d == 7 {
        "7"
    } else if d == 8 {
        "8"
    } else {
        "9"
    }
}

/// Appends the decimal notation of `n` to `out`.
fn push_decimal(out: &mut String, n: usize)
    ensures
        final(out)@ == old(out)@ + decimal(n as nat),
    decreases n,
{
    if n >= 10 {
        push_decimal(out, n / 10);
    }
    out.append(digit_str(n % 10));
}

/// Writes `"<line><sep><column>"`.
fn format_line_col(line: usize, sep: &str, column: usize) -> (r: String)
    ensures
        r@ == line_col(line as nat, sep@, column as nat),
{
    let mut s = String::new();
    push_decimal(&mut s, line);
    s.append(sep);
    push_decimal(&mut s, column);
    proof {
        assert(Seq::<char>::empty() + decimal(line as nat) =~= decimal(line as nat));
    }
    s
}

/// Writes `"<path>:<line>:<column>"`.
fn format_path_at(path: &str, line: usize, column: usize) -> (r: String)
    ensures
        r@ == path_at(path@, line as nat, column as nat),
{
    let mut s = String::from_str(path);
    s.append(":");
    push_decimal(&mut s, line);
    s.append(":");
    push_decimal(&mut s, column);
    s
}

/// `prefix + middle + suffix` as a new string.
fn enclose(prefix: &str, middle: String, suffix: &str) -> (r: String)
    ensures
        r@ == prefix@ + middle@ + suffix@,
{
    let mut s = String::from_str(prefix);
    s.append(middle.as_str());
    s.append(suffix);
    s
}

impl EditorKind {
    /// Resolves an editor name to its family: an exact, case-sensitive match
    /// against the alias table, else `UnknownEditor` carrying the name.
    pub fn from_name(value: String) -> (r: EditorKind)
        ensures
            r == kind_named(value),
    {
        let v = value.as_str();
        if same_text(v, "vi") {
            EditorKind::Vi
        } else if same_text(v, "vim") {
            EditorKind::Vim
        } else if same_text(v, "nvim") {
            EditorKind::Nvim
        } else if same_text(v, "emacs") {
            EditorKind::Emacs
        } else if same_text(v, "nano") {
            EditorKind::Nano
        } else if same_text(v, "pico") {
            EditorKind::Pico
        } else if same_text(v, "hx") {
            EditorKind::Helix
        } else if same_text(v, "kak") {
            EditorKind::Kakoune
        } else if same_text(v, "code") || same_text(v, "vscode") {
            EditorKind::Code
        } else if same_text(v, "atom") {
            EditorKind::Atom
        } else if same_text(v, "gvim") {
            EditorKind::Gvim
        } else if same_text(v, "subl") || same_text(v, "sublime") {
            EditorKind::Sublime
        } else if same_text(v, "mate") {
            EditorKind::TextMate
        } else {
            EditorKind::UnknownEditor(value)
        }
    }

    /// A copy of this kind.
    pub fn duplicate(&self) -> (r: Self)
        ensures
            r == *self,
    {
        match self {
            EditorKind::Vi => EditorKind::Vi,
            EditorKind::Vim => EditorKind::Vim,
            EditorKind::Nvim => EditorKind::Nvim,
            EditorKind::Emacs => EditorKind::Emacs,
            EditorKind::Nano => EditorKind::Nano,
            EditorKind::Pico => EditorKind::Pico,
            EditorKind::Helix => EditorKind::Helix,
            EditorKind::Kakoune => EditorKind::Kakoune,
            EditorKind::Code => EditorKind::Code,
            EditorKind::Atom => EditorKind::Atom,
            EditorKind::Gvim => EditorKind::Gvim,
            EditorKind::Sublime => EditorKind::Sublime,
            EditorKind::TextMate => EditorKind::TextMate,
            EditorKind::UnknownEditor(name) => EditorKind::UnknownEditor(name.clone()),
        }
    }

    /// The canonical short name of the family (the program to look up), or
    /// the name an unknown editor was given.
    pub fn display_name(&self) -> (r: String)
        ensures
            r@ == display_of(*self),
    {
        match self {
            EditorKind::Vi => String::from_str("vi"),
            EditorKind::Vim => String::from_str("vim"),
            EditorKind::Nvim => String::from_str("nvim"),
            EditorKind::Emacs => String::from_str("emacs"),
            EditorKind::Nano => String::from_str("nano"),
            EditorKind::Pico => String::from_str("pico"),
            EditorKind::Helix => String::from_str("hx"),
            EditorKind::Kakoune => String::from_str("kak"),
            EditorKind::Code => String::from_str("code"),
            EditorKind::Atom => String::from_str("atom"),
            EditorKind::Gvim => String::from_str("gvim"),
            EditorKind::Sublime => String::from_str("subl"),
            EditorKind::TextMate => String::from_str("mate"),
            EditorKind::UnknownEditor(name) => name.clone(),
        }
    }

    /// The arguments that open `file_path` at `line` and `column` in this
    /// editor; an unknown editor gets the path alone.
    pub fn get_editor_args(&self, file_path: &str, wait: bool, line: usize, column: usize) -> (r:
        Vec<String>)
        ensures
            r@.map_values(|a: String| a@) == editor_args(
                *self,
                file_path@,
                wait,
                line as nat,
                column as nat,
            ),
    {
        let mut args: Vec<String> = Vec::new();
        match self {
            EditorKind::Vi | EditorKind::Vim | EditorKind::Nvim | EditorKind::Gvim => {
                args.push(enclose("+call cursor(", format_line_col(line, ", ", column), ")"));
                args.push(String::from_str(file_path));
            },
            EditorKind::Emacs => {
                args.push(enclose("+", format_line_col(line, ":", column), ""));
                args.push(String::from_str(file_path));
            },
            EditorKind::Nano | EditorKind::Pico => {
                args.push(enclose("+", format_line_col(line, ",", column), ""));
                args.push(String::from_str(file_path));
            },
            EditorKind::Helix | EditorKind::Sublime => {
                args.push(format_path_at(file_path, line, column));
            },
            EditorKind::Kakoune => {
                args.push(String::from_str(file_path));
                args.push(enclose("+", format_line_col(line, ":", column), ""));
            },
            EditorKind::Code | EditorKind::Atom => {
                if wait {
                    args.push(String::from_str("-w"));
                }
                args.push(String::from_str("--goto"));
                args.push(format_path_at(file_path, line, column));
            },
            EditorKind::TextMate => {
                args.push(String::from_str("--line"));
                let mut l = String::new();
                push_decimal(&mut l, line);
                args.push(l);
                args.push(String::from_str(file_path));
            },
            EditorKind::UnknownEditor(_) => {
                args.push(String::from_str(file_path));
            },
        }
        proof {
            reveal_strlit("");
            let want = editor_args(*self, file_path@, wait, line as nat, column as nat);
            assert(args@.map_values(|a: String| a@) =~= want);
        }
        args
    }
}

impl From<String> for EditorKind {
    /// Resolves an editor name, as [`EditorKind::from_name`].
    fn from(value: String) -> (r: Self)
        ensures
            r == kind_named(value),
    {
        EditorKind::from_name(value)
    }
}

impl vstd::std_specs::convert::FromSpecImpl<String> for EditorKind {
    open spec fn obeys_from_spec() -> bool {
        true
    }

    open spec fn from_spec(v: String) -> Self {
        kind_named(v)
    }
}

} // verus!
