//! The part of a project's configuration that matters for its types: the
//! module format.

use vstd::prelude::*;
use vstd::string::{StrSliceExecFns, StringExecFns};

verus! {

/// The module formats that a project can be compiled to.
#[derive(Clone, Copy, PartialEq, Eq, Debug, Structural)]
pub enum Module {
    Node16,
    NodeNext,
    Es2015,
    Es2020,
    Es2022,
    EsNext,
    CommonJs,
    System,
    Amd,
    Umd,
}

/// A letter in lower case; any other character as it is.
pub open spec fn lower_char(c: char) -> char {
    if 'A' <= c && c <= 'Z' {
        ((c as u8) + 32) as char
    } else {
        c
    }
}

/// A text with its letters `A` to `Z` in lower case.
pub open spec fn ascii_lower(text: Seq<char>) -> Seq<char> {
    Seq::new(text.len(), |i: int| lower_char(text[i]))
}

/// The module format that a name in lower case stands for.
pub open spec fn module_of(name: Seq<char>) -> Option<Module> {
    if name == "node16"@ {
        Some(Module::Node16)
    } else if name == "nodenext"@ {
        Some(Module::NodeNext)
    } else if name == "es2015"@ {
        Some(Module::Es2015)
    } else if name == "es2020"@ {
        Some(Module::Es2020)
    } else if name == "es2022"@ {
        Some(Module::Es2022)
    } else if name == "esnext"@ {
        Some(Module::EsNext)
    } else if name == "commonjs"@ {
        Some(Module::CommonJs)
    } else if name == "system"@ {
        Some(Module::System)
    } else if name == "amd"@ {
        Some(Module::Amd)
    } else if name == "umd"@ {
        Some(Module::Umd)
    } else {
        None
    }
}

/// What `str::to_lowercase` makes of a text.
pub uninterp spec fn lowercase_of(text: Seq<char>) -> Seq<char>;

/// `str::to_lowercase`: the text in lower case, by the rules of Unicode.
#[verifier::external_body]
fn to_lowercase(text: &str) -> (lowered: String)
    ensures
        lowered@ == lowercase_of(text@),
{
    text.to_lowercase()
}

/// The message for a value that names no module format.
pub open spec fn invalid_module_message(lowered: Seq<char>) -> Seq<char> {
    "Invalid value '"@ + lowered + "' for compilerOptions.module"@
}

/// What parsing a module format from `text` gives, where `lowered` is the
/// text as the message shows it: the format that the text names when case is
/// ignored, or a message that names the option.
pub open spec fn parsed_module(text: Seq<char>, lowered: Seq<char>) -> Result<Module, Seq<char>> {
    match module_of(ascii_lower(text)) {
        Some(module) => Ok(module),
        None => Err(invalid_module_message(lowered)),
    }
}

/// The view of a parse result.
pub open spec fn parse_view(outcome: Result<Module, String>) -> Result<Module, Seq<char>> {
    match outcome {
        Ok(module) => Ok(module),
        Err(message) => Err(message@),
    }
}

fn lower(c: char) -> (lowered: char)
    ensures
        lowered == lower_char(c),
{
    if 'A' <= c && c <= 'Z' {
        ((c as u8) + 32) as char
    } else {
        c
    }
}

/// Whether two texts are the same when the case of the letters `A` to `Z` is
/// ignored.
pub fn equals_ignoring_case(left: &str, right: &str) -> (same: bool)
    ensures
        same == (ascii_lower(left@) == ascii_lower(right@)),
{
    let length = left.unicode_len();
    if length != right.unicode_len() {
        return false;
    }
    let mut at: usize = 0;
    while at < length
        invariant
            at <= length,
            length == left@.len(),
            length == right@.len(),
            forall|i: int| 0 <= i < at ==> lower_char(left@[i]) == lower_char(right@[i]),
        decreases length - at,
    {
        if lower(left.get_char(at)) != lower(right.get_char(at)) {
            assert(ascii_lower(left@)[at as int] != ascii_lower(right@)[at as int]);
            return false;
        }
        at += 1;
    }
    assert(ascii_lower(left@) =~= ascii_lower(right@));
    true
}

impl Module {
    /// Whether imports have to name the extension of the file they import.
    pub fn has_explicit_file_extension(&self) -> (explicit: bool)
        ensures
            explicit == (*self is Node16 || *self is NodeNext),
    {
        matches!(self, Module::Node16 | Module::NodeNext)
    }

    /// The name of the format, in lower case.
    pub open spec fn spec_name(self) -> Seq<char> {
        match self {
            Module::Node16 => "node16"@,
            Module::NodeNext => "nodenext"@,
            Module::Es2015 => "es2015"@,
            Module::Es2020 => "es2020"@,
            Module::Es2022 => "es2022"@,
            Module::EsNext => "esnext"@,
            Module::CommonJs => "commonjs"@,
            Module::System => "system"@,
            Module::Amd => "amd"@,
            Module::Umd => "umd"@,
        }
    }

    /// The name of the format, in lower case.
    pub fn name(&self) -> (name: &'static str)
        ensures
            name@ == self.spec_name(),
    {
        match self {
            Module::Node16 => "node16",
            Module::NodeNext => "nodenext",
            Module::Es2015 => "es2015",
            Module::Es2020 => "es2020",
            Module::Es2022 => "es2022",
            Module::EsNext => "esnext",
            Module::CommonJs => "commonjs",
            Module::System => "system",
            Module::Amd => "amd",
            Module::Umd => "umd",
        }
    }

    /// The format that `text` names, whatever the case of its letters.
    pub fn from_name(text: &str) -> (found: Option<Module>)
        ensures
            found == module_of(ascii_lower(text@)),
    {
        proof {
            names_are_lower_case();
        }
        if equals_ignoring_case(text, "node16") {
            Some(Module::Node16)
        } else if equals_ignoring_case(text, "nodenext") {
            Some(Module::NodeNext)
        } else if equals_ignoring_case(text, "es2015") {
            Some(Module::Es2015)
        } else if equals_ignoring_case(text, "es2020") {
            Some(Module::Es2020)
        } else if equals_ignoring_case(text, "es2022") {
            Some(Module::Es2022)
        } else if equals_ignoring_case(text, "esnext") {
            Some(Module::EsNext)
        } else if equals_ignoring_case(text, "commonjs") {
            Some(Module::CommonJs)
        } else if equals_ignoring_case(text, "system") {
            Some(Module::System)
        } else if equals_ignoring_case(text, "amd") {
            Some(Module::Amd)
        } else if equals_ignoring_case(text, "umd") {
            Some(Module::Umd)
        } else {
            None
        }
    }

    /// The result of parsing `text`, where `lowered` is the text in lower
    /// case as the message is to show it.
    pub fn parse_lowered(text: &str, lowered: &str) -> (outcome: Result<Module, String>)
        ensures
            parse_view(outcome) == parsed_module(text@, lowered@),
    {
        match Module::from_name(text) {
            Some(module) => Ok(module),
            None => {
                let mut message = String::from_str("Invalid value '");
                message.append(lowered);
                message.append("' for compilerOptions.module");
                Err(message)
            },
        }
    }

    /// Parses a module format from its name. The case of the letters is
    /// ignored. A text that names no format gives a message that shows the
    /// text in lower case and names the option.
    pub fn parse(text: &str) -> (outcome: Result<Module, String>)
        ensures
            parse_view(outcome) == parsed_module(text@, lowercase_of(text@)),
    {
        let lowered = to_lowercase(text);
        Module::parse_lowered(text, lowered.as_str())
    }
}

/// Every name of a format is in lower case.
pub proof fn names_are_lower_case()
    ensures
        ascii_lower("node16"@) == "node16"@,
        ascii_lower("nodenext"@) == "nodenext"@,
        ascii_lower("es2015"@) == "es2015"@,
        ascii_lower("es2020"@) == "es2020"@,
        ascii_lower("es2022"@) == "es2022"@,
        ascii_lower("esnext"@) == "esnext"@,
        ascii_lower("commonjs"@) == "commonjs"@,
        ascii_lower("system"@) == "system"@,
        ascii_lower("amd"@) == "amd"@,
        ascii_lower("umd"@) == "umd"@,
{
    reveal_strlit("node16");
    reveal_strlit("nodenext");
    reveal_strlit("es2015");
    reveal_strlit("es2020");
    reveal_strlit("es2022");
    reveal_strlit("esnext");
    reveal_strlit("commonjs");
    reveal_strlit("system");
    reveal_strlit("amd");
    reveal_strlit("umd");
}

/// Parsing ignores case and gives back the format whose name it is given:
/// every text that equals the name of a format when case is ignored, the name
/// itself among them, parses to that format.
pub proof fn module_names_round_trip(module: Module, text: Seq<char>, lowered: Seq<char>)
    requires
        ascii_lower(text) == ascii_lower(module.spec_name()),
    ensures
        module_of(ascii_lower(module.spec_name())) == Some(module),
        parsed_module(module.spec_name(), lowered) == Ok::<Module, Seq<char>>(module),
        parsed_module(text, lowered) == Ok::<Module, Seq<char>>(module),
{
    names_are_lower_case();
    reveal_strlit("node16");
    reveal_strlit("nodenext");
    reveal_strlit("es2015");
    reveal_strlit("es2020");
    reveal_strlit("es2022");
    reveal_strlit("esnext");
    reveal_strlit("commonjs");
    reveal_strlit("system");
    reveal_strlit("amd");
    reveal_strlit("umd");
    assert("es2015"@[5] == '5' && "es2020"@[5] == '0' && "es2022"@[5] == '2');
    assert("es2015"@[4] == '1' && "es2020"@[4] == '2' && "esnext"@[4] == 'x');
    assert("commonjs"@[0] == 'c' && "system"@[0] == 's' && "amd"@[0] == 'a' && "umd"@[0] == 'u');
}

/// A value of a configuration document, as far as the configuration reads
/// it: an object with its members in order, a string, or anything else.
#[derive(Debug)]
pub enum ConfigValue {
    Object(Vec<(String, ConfigValue)>),
    String(String),
    Other,
}

/// The value of the first member with the name `key`.
pub open spec fn first_member(members: Seq<(String, ConfigValue)>, key: Seq<char>) -> Option<
    ConfigValue,
>
    decreases members.len(),
{
    if members.len() == 0 {
        None
    } else if members[0].0@ == key {
        Some(members[0].1)
    } else {
        first_member(members.drop_first(), key)
    }
}

/// The member `key` of a value, if the value is an object that has one.
pub open spec fn member_of(value: ConfigValue, key: Seq<char>) -> Option<ConfigValue> {
    match value {
        ConfigValue::Object(members) => first_member(members@, key),
        _ => None,
    }
}

/// The module format that a configuration document sets: the member `module`
/// of the object `compilerOptions`, if it is a string that names a format.
pub open spec fn module_in(root: ConfigValue) -> Option<Module> {
    match member_of(root, "compilerOptions"@) {
        Some(ConfigValue::Object(options)) => match first_member(options@, "module"@) {
            Some(ConfigValue::String(name)) => module_of(ascii_lower(name@)),
            _ => None,
        },
        _ => None,
    }
}

impl ConfigValue {
    /// The member `key` of the value, if the value is an object that has one.
    pub fn member(&self, key: &str) -> (found: Option<&ConfigValue>)
        ensures
            match found {
                Some(value) => member_of(*self, key@) == Some(*value),
                None => member_of(*self, key@) is None,
            },
    {
        match self {
            ConfigValue::Object(members) => {
                let mut at: usize = 0;
                assert(members@.subrange(0, members@.len() as int) =~= members@);
                while at < members.len()
                    invariant
                        at <= members.len(),
                        member_of(*self, key@) == first_member(members@, key@),
                        first_member(members@, key@) == first_member(
                            members@.subrange(at as int, members@.len() as int),
                            key@,
                        ),
                    decreases members.len() - at,
                {
                    let ghost rest = members@.subrange(at as int, members@.len() as int);
                    assert(rest.drop_first() =~= members@.subrange(
                        at + 1,
                        members@.len() as int,
                    ));
                    if crate::constant_functions::same_text(members[at].0.as_str(), key) {
                        return Some(&members[at].1);
                    }
                    at += 1;
                }
                None
            },
            _ => None,
        }
    }
}

/// The configuration of a project.
#[derive(Debug)]
pub struct Tsconfig {
    pub module: Option<Module>,
}

impl Default for Tsconfig {
    fn default() -> (config: Tsconfig)
        ensures
            config.module is None,
    {
        Tsconfig { module: None }
    }
}

impl Tsconfig {
    /// The configuration that the document `root` holds. The document is an
    /// object.
    pub fn new(root: ConfigValue) -> (config: Tsconfig)
        requires
            root is Object,
        ensures
            config.module == module_in(root),
    {
        let mut config = Tsconfig::default();
        let module = match root.member("compilerOptions") {
            Some(options) => match options.member("module") {
                Some(ConfigValue::String(name)) => Module::from_name(name.as_str()),
                _ => None,
            },
            None => None,
        };
        config.set_module_opt(module);
        config
    }

    /// The configuration that the document `root` holds, if the document is
    /// an object.
    pub fn try_new(root: ConfigValue) -> (config: Option<Tsconfig>)
        ensures
            match config {
                Some(config) => root is Object && config.module == module_in(root),
                None => !(root is Object),
            },
    {
        let is_object = match &root {
            ConfigValue::Object(_) => true,
            _ => false,
        };
        if is_object {
            Some(Tsconfig::new(root))
        } else {
            None
        }
    }

    /// Sets the module format if one is given, and keeps it otherwise.
    /// Returns the configuration for further changes.
    pub fn set_module_opt(&mut self, module: Option<Module>) -> (config: &mut Self)
        ensures
            config.module == match module {
                Some(module) => Some(module),
                None => old(self).module,
            },
            *final(self) == *final(config),
    {
        if let Some(module) = module {
            self.module = Some(module);
        }
        self
    }
}

} // verus!
