//! The languages a runner knows: where the source goes, and the commands that
//! check, prepare and run a program.
use vstd::prelude::*;
use crate::text::{
    ascii_words,
    ascii_words_of,
    copy_string,
    joined,
    string_views,
    spec_utf8_lossy,
    utf8_lossy,
};

verus! {

/// A command as a program and its arguments.
#[derive(PartialEq, Eq, Debug)]
pub struct CommandLine {
    pub program: String,
    pub args: Vec<String>,
}

/// The words of a command: the program, then the arguments.
pub open spec fn command_words(cmd: CommandLine) -> Seq<Seq<char>> {
    seq![cmd.program@] + string_views(cmd.args@)
}

/// Splits a command line at ASCII whitespace: the first word is the program,
/// the others its arguments. The line must hold a word.
pub fn get_command(raw: &String) -> (cmd: CommandLine)
    requires
        ascii_words(raw@).len() > 0,
    ensures
        command_words(cmd) == ascii_words(raw@),
{
    let mut words = ascii_words_of(raw.as_str());
    let ghost all = string_views(words@);
    let rest = words.split_off(1);
    let program = words.pop().unwrap();
    proof {
        assert(string_views(rest@) =~= all.drop_first());
        assert(seq![program@] + string_views(rest@) =~= all);
    }
    CommandLine { program, args: rest }
}

/// A copy of a command.
pub fn copy_command(cmd: &CommandLine) -> (r: CommandLine)
    ensures
        command_words(r) == command_words(*cmd),
{
    let mut args: Vec<String> = Vec::new();
    for i in 0..cmd.args.len()
        invariant
            string_views(args@) == string_views(cmd.args@).take(i as int),
    {
        let a = copy_string(&cmd.args[i]);
        let ghost before = args@;
        args.push(a);
        proof {
            assert(args@ == before.push(a));
            assert(string_views(args@) =~= string_views(before).push(a@));
            assert(string_views(args@) =~= string_views(cmd.args@).take(i + 1));
        }
    }
    proof {
        assert(string_views(cmd.args@).take(cmd.args@.len() as int) =~= string_views(cmd.args@));
    }
    CommandLine { program: copy_string(&cmd.program), args }
}

/// Whether a command line holds a word at all.
pub fn has_command(raw: &String) -> (b: bool)
    ensures
        b == (ascii_words(raw@).len() > 0),
{
    ascii_words_of(raw.as_str()).len() > 0
}

/// How a language is handled.
#[derive(PartialEq, Eq, Debug)]
pub struct Language {
    /// The name of the source file.
    pub file: String,
    /// The command whose success shows that the language can be used; its
    /// output tells the version.
    pub check_command: String,
    /// The command that runs the program.
    pub run_command: String,
    /// The command that prepares the program (compiles it), if any.
    pub prepare_command: Option<String>,
    /// Seconds without a message from the server after which the program is
    /// stopped.
    pub idle_timeout: u64,
}

pub struct LanguageView {
    pub file: Seq<char>,
    pub check_command: Seq<char>,
    pub run_command: Seq<char>,
    pub prepare_command: Option<Seq<char>>,
    pub idle_timeout: u64,
}

impl View for Language {
    type V = LanguageView;

    open spec fn view(&self) -> LanguageView {
        LanguageView {
            file: self.file@,
            check_command: self.check_command@,
            run_command: self.run_command@,
            prepare_command: match self.prepare_command {
                Some(p) => Some(p@),
                None => None,
            },
            idle_timeout: self.idle_timeout,
        }
    }
}

/// The map that a list of entries makes when each is inserted in turn: a
/// later entry of a name replaces an earlier one.
pub open spec fn entries_map(entries: Seq<(Seq<char>, LanguageView)>) -> Map<
    Seq<char>,
    LanguageView,
>
    decreases entries.len(),
{
    if entries.len() == 0 {
        Map::empty()
    } else {
        entries_map(entries.drop_last()).insert(entries.last().0, entries.last().1)
    }
}

/// The languages known, by name.
pub struct LanguageTable {
    entries: Vec<(String, Language)>,
}

impl LanguageTable {
    pub closed spec fn entry_views(&self) -> Seq<(Seq<char>, LanguageView)> {
        self.entries@.map_values(|e: (String, Language)| (e.0@, e.1@))
    }
}

impl View for LanguageTable {
    type V = Map<Seq<char>, LanguageView>;

    closed spec fn view(&self) -> Map<Seq<char>, LanguageView> {
        entries_map(self.entry_views())
    }
}

proof fn lemma_entries_map_skip_tail(entries: Seq<(Seq<char>, LanguageView)>, i: int, name: Seq<char>)
    requires
        0 <= i <= entries.len(),
        forall|k: int| i <= k < entries.len() ==> #[trigger] entries[k].0 != name,
    ensures
        entries_map(entries).contains_key(name) == entries_map(entries.take(i)).contains_key(name),
        entries_map(entries)[name] == entries_map(entries.take(i))[name],
    decreases entries.len() - i,
{
    if i < entries.len() {
        let shorter = entries.drop_last();
        assert(entries[entries.len() - 1].0 != name);
        assert forall|k: int| i <= k < shorter.len() implies #[trigger] shorter[k].0 != name by {
            assert(shorter[k] == entries[k]);
        }
        lemma_entries_map_skip_tail(shorter, i, name);
        assert(shorter.take(i) =~= entries.take(i));
    } else {
        assert(entries.take(i) =~= entries);
    }
}

impl LanguageTable {
    /// A table that knows no language.
    pub fn new() -> (t: LanguageTable)
        ensures
            t@ == Map::<Seq<char>, LanguageView>::empty(),
    {
        let t = LanguageTable { entries: Vec::new() };
        assert(t.entry_views() =~= Seq::empty());
        t
    }

    /// Adds a language under `name`, replacing one of that name.
    pub fn insert(&mut self, name: String, language: Language)
        ensures
            final(self)@ == old(self)@.insert(name@, language@),
    {
        let ghost n = name@;
        let ghost l = language@;
        self.entries.push((name, language));
        assert(self.entry_views().drop_last() =~= old(self).entry_views());
        assert(self.entry_views().last() == (n, l));
    }

    /// The language known under `name`.
    pub fn get(&self, name: &String) -> (r: Option<&Language>)
        ensures
            match r {
                Some(l) => self@.contains_key(name@) && self@[name@] == l@,
                None => !self@.contains_key(name@),
            },
    {
        let ghost views = self.entry_views();
        let mut i = self.entries.len();
        while i > 0
            invariant
                i <= self.entries@.len(),
                views == self.entry_views(),
                views.len() == self.entries@.len(),
                forall|k: int| i <= k < views.len() ==> #[trigger] views[k].0 != name@,
            decreases i,
        {
            let entry = &self.entries[i - 1];
            assert(views[i - 1] == (entry.0@, entry.1@));
            if entry.0 == *name {
                proof {
                    lemma_entries_map_skip_tail(views, i as int, name@);
                    assert(views.take(i as int).drop_last() =~= views.take(i - 1));
                }
                return Some(&entry.1);
            }
            i = i - 1;
        }
        proof {
            lemma_entries_map_skip_tail(views, 0, name@);
            assert(views.take(0) =~= Seq::empty());
        }
        None
    }
}

/// A read gives back what the last write of that name wrote, and a write
/// leaves every other name as it was.
pub proof fn lemma_table_read_after_write(
    before: Map<Seq<char>, LanguageView>,
    name: Seq<char>,
    language: LanguageView,
    other: Seq<char>,
)
    requires
        other != name,
    ensures
        before.insert(name, language).contains_key(name),
        before.insert(name, language)[name] == language,
        before.insert(name, language).contains_key(other) == before.contains_key(other),
        before.insert(name, language)[other] == before[other],
{
}

/// The entry that a language contributes to the list of available ones: its
/// name and the output of its check command (stdout then stderr), where the
/// check succeeded.
pub fn availability_entry(name: &String, check_succeeded: bool, stdout: &[u8], stderr: &[u8]) -> (r:
    Option<(String, String)>)
    ensures
        match r {
            Some((n, banner)) => check_succeeded && n@ == name@ && banner@ == spec_utf8_lossy(
                stdout@,
            ) + spec_utf8_lossy(stderr@),
            None => !check_succeeded,
        },
{
    if check_succeeded {
        let out = utf8_lossy(stdout);
        let err = utf8_lossy(stderr);
        Some((copy_string(name), joined(out.as_str(), err.as_str())))
    } else {
        None
    }
}

} // verus!
