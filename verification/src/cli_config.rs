use vstd::prelude::*;

use crate::account::{parse_account, spec_parse_account, Account};
use crate::util::str_eq;

verus! {

/// CLI configuration: where the two template repositories live and which
/// account pays by default.
pub struct Config {
    pub project_template_repository: TemplateRepository,
    pub wasm_template_repository: TemplateRepository,
    pub default_account: Option<Account>,
}

/// A git repository holding project or WASM templates: its URL, the branch
/// to track, and the folder the templates sit under.
pub struct TemplateRepository {
    pub url: String,
    pub branch: String,
    pub folder: String,
}

/// One `key=value` override of the configuration, as parsed from the
/// command line.
#[derive(Debug, PartialEq, Eq)]
pub struct ConfigOverride {
    pub key: String,
    pub value: String,
}

impl Default for Config {
    /// The stock configuration: both template repositories point at the
    /// Tari wasm-template repository's main branch, with the project and
    /// WASM templates in their own folders, and no default account.
    fn default() -> (r: Self)
        ensures
            r.project_template_repository.url@ == "https://github.com/tari-project/wasm-template"@,
            r.project_template_repository.branch@ == "main"@,
            r.project_template_repository.folder@ == "project_templates"@,
            r.wasm_template_repository.url@ == "https://github.com/tari-project/wasm-template"@,
            r.wasm_template_repository.branch@ == "main"@,
            r.wasm_template_repository.folder@ == "wasm_templates"@,
            r.default_account is None,
    {
        Config {
            project_template_repository: TemplateRepository {
                url: "https://github.com/tari-project/wasm-template".to_owned(),
                branch: "main".to_owned(),
                folder: "project_templates".to_owned(),
            },
            wasm_template_repository: TemplateRepository {
                url: "https://github.com/tari-project/wasm-template".to_owned(),
                branch: "main".to_owned(),
                folder: "wasm_templates".to_owned(),
            },
            default_account: None,
        }
    }
}

/// How many `=` the text holds.
pub open spec fn spec_eq_count(s: Seq<char>) -> int
    decreases s.len(),
{
    if s.len() == 0 {
        0
    } else {
        spec_eq_count(s.drop_last()) + if s.last() == '=' {
            1int
        } else {
            0int
        }
    }
}

/// The index of the first `=` in the text (the text's length when it has
/// none).
pub open spec fn spec_first_eq(s: Seq<char>) -> int
    decreases s.len(),
{
    if s.len() == 0 {
        0
    } else if s[0] == '=' {
        0
    } else {
        1 + spec_first_eq(s.drop_first())
    }
}

proof fn lemma_first_eq_at(s: Seq<char>, k: int)
    requires
        0 <= k < s.len(),
        s[k] == '=',
        forall|j: int| 0 <= j < k ==> s[j] != '=',
    ensures
        spec_first_eq(s) == k,
    decreases k,
{
    if k > 0 {
        lemma_first_eq_at(s.drop_first(), k - 1);
    }
}

proof fn lemma_no_eq(s: Seq<char>)
    requires
        forall|j: int| 0 <= j < s.len() ==> s[j] != '=',
    ensures
        spec_first_eq(s) == s.len(),
    decreases s.len(),
{
    if s.len() > 0 {
        lemma_no_eq(s.drop_first());
    }
}

/// Parses a `key=value` override: the text must hold exactly one `=`, and
/// the part before it must name a configuration entry overrides may set.
pub fn config_override_parser(config_override: &str) -> (r: Result<ConfigOverride, String>)
    ensures
        config_override@.len() == 0 ==> (r matches Err(m) && m@ == "Override cannot be empty!"@),
        config_override@.len() > 0 && spec_eq_count(config_override@) != 1 ==> (r matches Err(m)
            && m@ == "Invalid override!"@),
        config_override@.len() > 0 && spec_eq_count(config_override@) == 1 ==> {
            let key = config_override@.take(spec_first_eq(config_override@));
            let value = config_override@.skip(spec_first_eq(config_override@) + 1);
            if spec_is_valid_override_key(key) {
                r matches Ok(o) && o.key@ == key && o.value@ == value
            } else {
                r matches Err(m) && m@ == "Override key invalid: "@ + key
            }
        },
{
    let len = config_override.unicode_len();
    if len == 0 {
        return Err("Override cannot be empty!".to_owned());
    }
    let mut count: usize = 0;
    let mut first: usize = len;
    let mut i: usize = 0;
    proof {
        assert(config_override@.take(0) =~= Seq::<char>::empty());
    }
    while i < len
        invariant
            i <= len,
            len == config_override@.len(),
            count <= i,
            count == spec_eq_count(config_override@.take(i as int)),
            count == 0 ==> first == len && (forall|j: int|
                0 <= j < i ==> config_override@[j] != '='),
            count > 0 ==> first < i && config_override@[first as int] == '=' && (forall|j: int|
                0 <= j < first ==> config_override@[j] != '='),
        decreases len - i,
    {
        let c = config_override.get_char(i);
        proof {
            assert(config_override@.take(i + 1).last() == config_override@[i as int]);
            assert(config_override@.take(i + 1).drop_last() =~= config_override@.take(i as int));
        }
        if c == '=' {
            if count == 0 {
                first = i;
            }
            count = count + 1;
        }
        i = i + 1;
    }
    proof {
        assert(config_override@.take(len as int) =~= config_override@);
    }
    if count != 1 {
        return Err("Invalid override!".to_owned());
    }
    proof {
        lemma_first_eq_at(config_override@, first as int);
    }
    let key = config_override.substring_char(0, first);
    let value = config_override.substring_char(first + 1, len);
    proof {
        assert(key@ =~= config_override@.take(spec_first_eq(config_override@)));
        assert(value@ =~= config_override@.skip(spec_first_eq(config_override@) + 1));
    }
    if !Config::is_override_key_valid(key) {
        let mut message = "Override key invalid: ".to_owned();
        message.append(key);
        return Err(message);
    }
    Ok(ConfigOverride { key: key.to_owned(), value: value.to_owned() })
}

/// The configuration keys an override may name.
pub open spec fn spec_is_valid_override_key(k: Seq<char>) -> bool {
    ||| k == "project_template_repository.url"@
    ||| k == "project_template_repository.branch"@
    ||| k == "project_template_repository.folder"@
    ||| k == "wasm_template_repository.url"@
    ||| k == "wasm_template_repository.branch"@
    ||| k == "wasm_template_repository.folder"@
    ||| k == "default_account"@
}

impl Config {
    /// Whether `key` names a configuration entry an override may set.
    pub fn is_override_key_valid(key: &str) -> (r: bool)
        ensures
            r == spec_is_valid_override_key(key@),
    {
        str_eq(key, "project_template_repository.url")
            || str_eq(key, "project_template_repository.branch")
            || str_eq(key, "project_template_repository.folder")
            || str_eq(key, "wasm_template_repository.url")
            || str_eq(key, "wasm_template_repository.branch")
            || str_eq(key, "wasm_template_repository.folder")
            || str_eq(key, "default_account")
    }

    /// Sets the configuration entry `key` names to `value`; an unknown key
    /// is refused and leaves the configuration untouched. The account
    /// override is classified as address or name the way every account
    /// reference is.
    pub fn override_data(&mut self, key: &str, value: &str) -> (r: Result<(), String>)
        ensures
            r is Err <==> !spec_is_valid_override_key(key@),
            r is Err ==> *final(self) == *old(self),
            key@ == "project_template_repository.url"@ ==> *final(self) == (Config {
                project_template_repository: TemplateRepository {
                    url: final(self).project_template_repository.url,
                    ..old(self).project_template_repository
                },
                ..*old(self)
            }) && final(self).project_template_repository.url@ == value@,
            key@ == "project_template_repository.branch"@ ==> *final(self) == (Config {
                project_template_repository: TemplateRepository {
                    branch: final(self).project_template_repository.branch,
                    ..old(self).project_template_repository
                },
                ..*old(self)
            }) && final(self).project_template_repository.branch@ == value@,
            key@ == "project_template_repository.folder"@ ==> *final(self) == (Config {
                project_template_repository: TemplateRepository {
                    folder: final(self).project_template_repository.folder,
                    ..old(self).project_template_repository
                },
                ..*old(self)
            }) && final(self).project_template_repository.folder@ == value@,
            key@ == "wasm_template_repository.url"@ ==> *final(self) == (Config {
                wasm_template_repository: TemplateRepository {
                    url: final(self).wasm_template_repository.url,
                    ..old(self).wasm_template_repository
                },
                ..*old(self)
            }) && final(self).wasm_template_repository.url@ == value@,
            key@ == "wasm_template_repository.branch"@ ==> *final(self) == (Config {
                wasm_template_repository: TemplateRepository {
                    branch: final(self).wasm_template_repository.branch,
                    ..old(self).wasm_template_repository
                },
                ..*old(self)
            }) && final(self).wasm_template_repository.branch@ == value@,
            key@ == "wasm_template_repository.folder"@ ==> *final(self) == (Config {
                wasm_template_repository: TemplateRepository {
                    folder: final(self).wasm_template_repository.folder,
                    ..old(self).wasm_template_repository
                },
                ..*old(self)
            }) && final(self).wasm_template_repository.folder@ == value@,
            key@ == "default_account"@ ==> *final(self) == (Config {
                default_account: final(self).default_account,
                ..*old(self)
            }) && (final(self).default_account matches Some(a) && a@
                == spec_parse_account(value@)),
{
        proof {
            reveal_strlit("project_template_repository.url");
            reveal_strlit("project_template_repository.branch");
            reveal_strlit("project_template_repository.folder");
            reveal_strlit("wasm_template_repository.url");
            reveal_strlit("wasm_template_repository.branch");
            reveal_strlit("wasm_template_repository.folder");
            reveal_strlit("default_account");
            // the keys are pairwise distinct: the solver needs their
            // lengths and one distinguishing character for the same-length
            // pairs spelled out
            assert("project_template_repository.url"@.len() == 31);
            assert("project_template_repository.branch"@.len() == 34);
            assert("project_template_repository.folder"@.len() == 34);
            assert("wasm_template_repository.url"@.len() == 28);
            assert("wasm_template_repository.branch"@.len() == 31);
            assert("wasm_template_repository.folder"@.len() == 31);
            assert("default_account"@.len() == 15);
            assert("project_template_repository.branch"@[28] == 'b');
            assert("project_template_repository.folder"@[28] == 'f');
            assert("project_template_repository.url"@[0] == 'p');
            assert("wasm_template_repository.branch"@[0] == 'w');
            assert("wasm_template_repository.folder"@[0] == 'w');
            assert("wasm_template_repository.branch"@[25] == 'b');
            assert("wasm_template_repository.folder"@[25] == 'f');
        }
        if !Self::is_override_key_valid(key) {
            let mut message = String::new();
            message.append("Invalid key: ");
            message.append(key);
            return Err(message);
        }
        if str_eq(key, "project_template_repository.url") {
            self.project_template_repository.url = value.to_owned();
        } else if str_eq(key, "project_template_repository.branch") {
            self.project_template_repository.branch = value.to_owned();
        } else if str_eq(key, "project_template_repository.folder") {
            self.project_template_repository.folder = value.to_owned();
        } else if str_eq(key, "wasm_template_repository.url") {
            self.wasm_template_repository.url = value.to_owned();
        } else if str_eq(key, "wasm_template_repository.branch") {
            self.wasm_template_repository.branch = value.to_owned();
        } else if str_eq(key, "wasm_template_repository.folder") {
            self.wasm_template_repository.folder = value.to_owned();
        } else {
            let owned = value.to_owned();
            self.default_account = Some(parse_account(&owned));
        }
        Ok(())
    }
}

} // verus!
