//! Language support.

use vstd::prelude::*;
use vstd::string::StringExecFns;
use crate::text::{decimal, decimal_text, join3, str_eq};

verus! {

/// A language that Whisper can transcribe.
#[derive(Debug, Clone, Copy, PartialEq, Eq)]
pub struct Language {
    /// The code of the language, such as "en".
    pub code: &'static str,
    /// The English name of the language.
    pub name: &'static str,
}

/// The code that asks for the language to be detected.
pub const AUTO_DETECT: &'static str = "auto";

/// The supported languages, as pairs of code and name.
pub open spec fn language_table() -> Seq<(Seq<char>, Seq<char>)> {
    seq![
        ("en"@, "English"@),
        ("es"@, "Spanish"@),
        ("fr"@, "French"@),
        ("de"@, "German"@),
        ("it"@, "Italian"@),
        ("pt"@, "Portuguese"@),
        ("zh"@, "Chinese"@),
        ("ja"@, "Japanese"@),
        ("ko"@, "Korean"@),
        ("ru"@, "Russian"@),
        ("ar"@, "Arabic"@),
        ("hi"@, "Hindi"@),
    ]
}

/// The place of the first language of `table` from `from` on whose code is
/// `code`, or the length of the table where there is none.
pub open spec fn find_code(table: Seq<(Seq<char>, Seq<char>)>, code: Seq<char>, from: int) -> int
    decreases table.len() - from,
{
    if from < 0 || from >= table.len() {
        table.len() as int
    } else if table[from].0 == code {
        from
    } else {
        find_code(table, code, from + 1)
    }
}

/// Whether `code` is the code of a supported language.
pub open spec fn is_supported(code: Seq<char>) -> bool {
    find_code(language_table(), code, 0) < language_table().len()
}

/// The name of the supported language with the code `code`.
pub open spec fn name_of(code: Seq<char>) -> Seq<char> {
    language_table()[find_code(language_table(), code, 0)].1
}

/// The supported languages.
pub fn supported_languages() -> (r: Vec<Language>)
    ensures
        r@.len() == language_table().len(),
        forall|i: int|
            0 <= i < r@.len() ==> (#[trigger] r@[i]).code@ == language_table()[i].0 && r@[i].name@
                == language_table()[i].1,
{
    let mut languages: Vec<Language> = Vec::new();
    languages.push(Language::new("en", "English"));
    languages.push(Language::new("es", "Spanish"));
    languages.push(Language::new("fr", "French"));
    languages.push(Language::new("de", "German"));
    languages.push(Language::new("it", "Italian"));
    languages.push(Language::new("pt", "Portuguese"));
    languages.push(Language::new("zh", "Chinese"));
    languages.push(Language::new("ja", "Japanese"));
    languages.push(Language::new("ko", "Korean"));
    languages.push(Language::new("ru", "Russian"));
    languages.push(Language::new("ar", "Arabic"));
    languages.push(Language::new("hi", "Hindi"));
    languages
}

impl Language {
    /// A language with the given code and name.
    pub fn new(code: &'static str, name: &'static str) -> (r: Self)
        ensures
            r.code == code,
            r.name == name,
    {
        Language { code, name }
    }

    /// The supported language with the given code, if there is one.
    pub fn from_code(code: &str) -> (r: Option<Self>)
        ensures
            r is Some <==> is_supported(code@),
            r is Some ==> r->0.code@ == code@ && r->0.name@ == name_of(code@),
    {
        let languages = supported_languages();
        let mut i: usize = 0;
        while i < languages.len()
            invariant
                i <= languages@.len(),
                languages@.len() == language_table().len(),
                forall|k: int|
                    0 <= k < languages@.len() ==> (#[trigger] languages@[k]).code@
                        == language_table()[k].0 && languages@[k].name@ == language_table()[k].1,
                find_code(language_table(), code@, 0) == find_code(
                    language_table(),
                    code@,
                    i as int,
                ),
            decreases languages@.len() - i,
        {
            if str_eq(languages[i].code, code) {
                return Some(languages[i]);
            }
            i = i + 1;
        }
        None
    }

    /// Whether `code` is the code of a supported language or asks for
    /// detection.
    pub fn is_valid(code: &str) -> (r: bool)
        ensures
            r == (is_supported(code@) || code@ == AUTO_DETECT@),
    {
        Language::from_code(code).is_some() || str_eq(code, AUTO_DETECT)
    }
}

/// The codes of the supported languages.
pub fn supported_codes() -> (r: Vec<&'static str>)
    ensures
        r@.len() == language_table().len(),
        forall|i: int| 0 <= i < r@.len() ==> (#[trigger] r@[i])@ == language_table()[i].0,
{
    let languages = supported_languages();
    let mut codes: Vec<&'static str> = Vec::new();
    let mut i: usize = 0;
    while i < languages.len()
        invariant
            i <= languages@.len(),
            codes@.len() == i,
            languages@.len() == language_table().len(),
            forall|k: int|
                0 <= k < languages@.len() ==> (#[trigger] languages@[k]).code@
                    == language_table()[k].0,
            forall|k: int| 0 <= k < i ==> (#[trigger] codes@[k])@ == language_table()[k].0,
        decreases languages@.len() - i,
    {
        codes.push(languages[i].code);
        i = i + 1;
    }
    codes
}

/// The name to show for a language code: "Auto-detect" for the code that
/// asks for detection, the name of a supported language for its code, and
/// "Unknown (..)" around any other code.
pub fn display_name(code: &str) -> (r: String)
    ensures
        r@ == if code@ == AUTO_DETECT@ {
            "Auto-detect"@
        } else if is_supported(code@) {
            name_of(code@)
        } else {
            "Unknown ("@ + code@ + ")"@
        },
{
    if str_eq(code, AUTO_DETECT) {
        return String::from_str("Auto-detect");
    }
    match Language::from_code(code) {
        Some(language) => String::from_str(language.name),
        None => join3("Unknown (", code, ")"),
    }
}

/// The lines of the report for the first `count` languages of the table:
/// one line for each, with its code and its name.
pub open spec fn language_lines(count: nat) -> Seq<char>
    decreases count,
{
    if count == 0 || count > language_table().len() {
        Seq::empty()
    } else {
        language_lines((count - 1) as nat) + "  "@ + language_table()[count - 1].0 + " - "@
            + language_table()[count - 1].1 + "\n"@
    }
}

/// The report of the supported languages: a heading, a line for the
/// detection of the language, a line for each supported language, an
/// empty line, and the number of choices.
pub open spec fn languages_report_text() -> Seq<char> {
    "Supported Languages:\n  auto - Auto-detect language\n"@ + language_lines(
        language_table().len(),
    ) + "\nTotal: "@ + decimal(language_table().len() + 1) + " languages"@
}

/// The report of the supported languages.
pub fn languages_report() -> (r: String)
    ensures
        r@ == languages_report_text(),
{
    let languages = supported_languages();
    let mut report = String::from_str("Supported Languages:\n  auto - Auto-detect language\n");
    let ghost head = report@;
    let mut i: usize = 0;
    proof {
        assert(head + language_lines(0) =~= head);
    }
    while i < languages.len()
        invariant
            i <= languages@.len(),
            languages@.len() == language_table().len(),
            forall|k: int|
                0 <= k < languages@.len() ==> (#[trigger] languages@[k]).code@
                    == language_table()[k].0 && languages@[k].name@ == language_table()[k].1,
            report@ == head + language_lines(i as nat),
        decreases languages@.len() - i,
    {
        let ghost before = report@;
        report.append("  ");
        report.append(languages[i].code);
        report.append(" - ");
        report.append(languages[i].name);
        report.append("\n");
        proof {
            assert(report@ =~= head + language_lines((i + 1) as nat));
        }
        i = i + 1;
    }
    let total = decimal_text(languages.len() + 1);
    report.append("\nTotal: ");
    report.append(total.as_str());
    report.append(" languages");
    proof {
        assert(report@ =~= languages_report_text());
    }
    report
}

} // verus!
