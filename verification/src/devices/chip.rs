//! Chips: the slots of a rack, and the capability that runs a scripted chip.

use vstd::prelude::*;
use crate::deserializer::Deserializer;
use crate::devices::names::configured_name;
use crate::devices::names::field_name;
use crate::devices::names::pascal_name;
use crate::field::Field;
use crate::field::FieldModel;
use crate::field::models;
use crate::text::str_equal;
use crate::value::truthy;
use crate::value::ValueModel;

verus! {

/// The interpreter that a scripted chip delegates to. An implementation may
/// say in its spec functions what its operations can do; this library proves
/// what chips, racks and networks do in terms of them. An implementation that
/// leaves a spec function as it is allows every outcome of that operation.
pub trait CodeRunner: Default {
    /// Whether the runner, in this state, can share the named values `out`.
    open spec fn shares(&self, out: Seq<FieldModel>) -> bool {
        true
    }

    /// Whether loading the source at `path` can take the runner from `self` to
    /// `after`, succeeding or not as `ok` says.
    open spec fn parses(&self, path: Seq<char>, after: &Self, ok: bool) -> bool {
        true
    }

    /// Whether one tick can take the runner from `self` to `after`.
    open spec fn steps(&self, after: &Self) -> bool {
        true
    }

    /// Whether taking over `globals` can take the runner from `self` to `after`.
    open spec fn updates(&self, globals: Seq<FieldModel>, after: &Self) -> bool {
        true
    }

    /// Loads the source at `path`; `None` where that fails.
    fn parse(&mut self, path: &str) -> (r: Option<()>)
        ensures
            old(self).parses(path@, final(self), r is Some),
    ;

    /// Advances the program by one tick.
    fn step(&mut self)
        ensures
            old(self).steps(final(self)),
    ;

    /// Hands the program the current values of the network's bus.
    fn update_globals(&mut self, globals: Vec<Field>)
        ensures
            old(self).updates(models(globals@), final(self)),
    ;

    /// The named values that the program shares.
    fn get_global(&self) -> (r: Vec<Field>)
        ensures
            self.shares(models(r@)),
    ;
}

/// A runner that loads nothing, does nothing and shares nothing.
#[derive(Debug)]
pub struct NoneRunner;

impl Default for NoneRunner {
    fn default() -> (r: Self) {
        NoneRunner
    }
}

impl CodeRunner for NoneRunner {
    open spec fn shares(&self, out: Seq<FieldModel>) -> bool {
        out == Seq::<FieldModel>::empty()
    }

    open spec fn parses(&self, path: Seq<char>, after: &Self, ok: bool) -> bool {
        !ok
    }

    fn parse(&mut self, path: &str) -> (r: Option<()>) {
        None
    }

    fn step(&mut self) {
    }

    fn update_globals(&mut self, globals: Vec<Field>) {
    }

    fn get_global(&self) -> (r: Vec<Field>) {
        let out: Vec<Field> = Vec::new();
        assert(models(out@) =~= Seq::<FieldModel>::empty());
        out
    }
}

/// A chip that only stores.
#[derive(Debug)]
pub struct MemoryChip {}

impl Default for MemoryChip {
    fn default() -> (r: Self) {
        MemoryChip {}
    }
}

/// A chip that runs a script: the field that gates its execution, where its
/// source lies, and the runner once the source is loaded.
#[derive(Debug)]
pub struct YololChip<R: CodeRunner> {
    chip_wait: Field,
    path: Option<String>,
    runner: Option<R>,
}

impl<R: CodeRunner> YololChip<R> {
    /// The field that gates execution.
    pub closed spec fn wait(&self) -> FieldModel {
        self.chip_wait@
    }

    /// Where the chip's source lies.
    pub closed spec fn script(&self) -> Option<Seq<char>> {
        match self.path {
            Some(p) => Some(p@),
            None => None,
        }
    }

    /// The runner, present once the source is loaded.
    pub closed spec fn runner(&self) -> Option<R> {
        self.runner
    }

    /// The same chip with `runner` in place of its own.
    pub closed spec fn with_runner(self, runner: R) -> Self {
        YololChip { chip_wait: self.chip_wait, path: self.path, runner: Some(runner) }
    }

    /// The same chip with a wait field that holds `wait`.
    pub closed spec fn with_wait(self, wait: Field) -> Self {
        YololChip { chip_wait: wait, path: self.path, runner: self.runner }
    }

    /// Replacing the wait field changes nothing else.
    pub proof fn lemma_with_wait(self, wait: Field)
        ensures
            self.with_wait(wait).wait() == wait@,
            self.with_wait(wait).script() == self.script(),
            self.with_wait(wait).runner() == self.runner(),
    {
    }

    /// Replacing the runner changes nothing else.
    pub proof fn lemma_with_runner(self, runner: R)
        ensures
            self.with_runner(runner).wait() == self.wait(),
            self.with_runner(runner).script() == self.script(),
            self.with_runner(runner).runner() == Some(runner),
    {
    }
}

impl<R: CodeRunner> Default for YololChip<R> {
    /// A chip without a source path or runner, its wait field unnamed.
    fn default() -> (r: Self)
        ensures
            r.wait() == Field::default_model(),
            r.runner() is None,
            r.script() is None,
    {
        YololChip { chip_wait: Field::default(), path: None, runner: None }
    }
}

/// A chip slot: empty, a memory chip, or a scripted chip.
#[derive(Debug)]
pub enum Chip<R: CodeRunner> {
    Empty,
    Memory(MemoryChip),
    Yolol(YololChip<R>),
}

impl<R: CodeRunner> Default for Chip<R> {
    /// The empty slot.
    fn default() -> (r: Self)
        ensures
            r is Empty,
    {
        Chip::Empty
    }
}

/// The type tag of a memory chip.
pub open spec fn memory_tag() -> Seq<char> {
    "memory_chip"@
}

/// The type tag of a scripted chip.
pub open spec fn yolol_tag() -> Seq<char> {
    "yolol_chip"@
}

/// The source path that a chip's document names: the string under `script`.
pub open spec fn script_of<D: Deserializer>(doc: &D) -> Option<Seq<char>> {
    match doc.field_of("script"@) {
        Some(entry) => entry.text(),
        None => None,
    }
}

impl<R: CodeRunner> Chip<R> {
    /// The runner of a scripted chip whose source is loaded.
    pub open spec fn runner(&self) -> Option<R> {
        match self {
            Chip::Yolol(c) => c.runner(),
            _ => None,
        }
    }

    /// The same chip with `runner` in place of its own, for a scripted chip.
    pub open spec fn with_runner(self, runner: R) -> Self {
        match self {
            Chip::Yolol(c) => Chip::Yolol(c.with_runner(runner)),
            _ => self,
        }
    }

    /// Whether the chip executes when stepped: its wait field counts as true.
    pub open spec fn runs(&self) -> bool {
        self matches Chip::Yolol(c) && truthy(c.wait().value)
    }

    /// Whether the chip can share the named values `out`: those that its
    /// runner can share, and none without a runner.
    pub open spec fn shares(&self, out: Seq<FieldModel>) -> bool {
        match self.runner() {
            Some(r) => r.shares(out),
            None => out == Seq::<FieldModel>::empty(),
        }
    }

    /// Whether `after` is `self` with its runner taken to a state that `to`
    /// accepts; a chip without a runner stays as it is.
    pub open spec fn runner_moves(&self, after: &Self, to: spec_fn(R, R) -> bool) -> bool {
        match self.runner() {
            Some(r) => after.runner() matches Some(q) && to(r, q) && *after == self.with_runner(q),
            None => *after == *self,
        }
    }

    /// What `step` does: a loaded chip that runs has its runner advanced by a
    /// tick; any other chip stays as it is.
    pub open spec fn steps(&self, after: &Self) -> bool {
        if self.runs() {
            self.runner_moves(after, |r: R, q: R| r.steps(&q))
        } else {
            *after == *self
        }
    }

    /// What `update_globals` does: a loaded chip has its runner take over the
    /// values; any other chip stays as it is.
    pub open spec fn updates(&self, globals: Seq<FieldModel>, after: &Self) -> bool {
        self.runner_moves(after, |r: R, q: R| r.updates(globals, &q))
    }

    /// What `load` does: a scripted chip with a source path gets the runner
    /// that parsed the source, or stays as it is where parsing failed; any
    /// other chip stays as it is.
    pub open spec fn loads(&self, after: &Self) -> bool {
        match self {
            Chip::Yolol(c) => match c.script() {
                Some(path) => exists|fresh: R, parsed: R, ok: bool|
                    #[trigger] fresh.parses(path, &parsed, ok) && *after == (if ok {
                        self.with_runner(parsed)
                    } else {
                        *self
                    }),
                None => *after == *self,
            },
            _ => *after == *self,
        }
    }

    /// What a chip is made of from its type tag and its document.
    pub open spec fn configured<D: Deserializer>(&self, chip_type: Seq<char>, doc: &D) -> bool {
        if chip_type == memory_tag() {
            self is Memory
        } else if chip_type == yolol_tag() {
            self matches Chip::Yolol(c) && c.runner() is None && c.script() == script_of(doc)
                && c.wait() == (FieldModel {
                name: configured_name(doc, pascal_name("chip_wait"@)),
                value: ValueModel::Number(0),
            })
        } else {
            self is Empty
        }
    }

    /// The chip that the type tag `chip_type` names, set up from `doc`: a
    /// memory chip, a scripted chip that is not loaded yet, or, for any other
    /// tag, the empty slot.
    pub fn new<D: Deserializer>(chip_type: String, doc: &D) -> (r: Self)
        ensures
            r.configured(chip_type@, doc),
    {
        proof {
            reveal_strlit("memory_chip");
            reveal_strlit("yolol_chip");
            reveal_strlit("chip_wait");
        }
        if str_equal(chip_type.as_str(), "memory_chip") {
            Chip::Memory(MemoryChip::default())
        } else if str_equal(chip_type.as_str(), "yolol_chip") {
            let path: Option<String> = match doc.get_field("script") {
                Some(entry) => match entry.as_str() {
                    Some(s) => Some(s.to_string()),
                    None => None,
                },
                None => None,
            };
            let mut chip_wait = Field::default();
            chip_wait.set_name(field_name(doc, "chip_wait"));
            Chip::Yolol(YololChip { chip_wait, path, runner: None })
        } else {
            Chip::Empty
        }
    }

    /// The field that gates the execution of a scripted chip.
    pub fn wait(&self) -> (r: Option<&Field>)
        ensures
            match r {
                Some(f) => self matches Chip::Yolol(c) && f@ == c.wait(),
                None => !(self is Yolol),
            },
    {
        match self {
            Chip::Yolol(chip) => Some(&chip.chip_wait),
            _ => None,
        }
    }

    /// The field that gates the execution of a scripted chip, to be changed in
    /// place; nothing else of the chip changes.
    pub fn wait_mut(&mut self) -> (r: Option<&mut Field>)
        ensures
            match r {
                Some(f) => *old(self) matches Chip::Yolol(c) && f@ == c.wait() && *final(self)
                    == Chip::Yolol(c.with_wait(*final(f))),
                None => !(*old(self) is Yolol) && *final(self) == *old(self),
            },
    {
        match self {
            Chip::Yolol(chip) => Some(&mut chip.chip_wait),
            _ => None,
        }
    }

    /// Where the source of a scripted chip lies.
    pub fn path(&self) -> (r: Option<&str>)
        ensures
            match r {
                Some(p) => self matches Chip::Yolol(c) && c.script() == Some(p@),
                None => self matches Chip::Yolol(c) ==> c.script() is None,
            },
    {
        match self {
            Chip::Yolol(chip) => match &chip.path {
                Some(p) => Some(p.as_str()),
                None => None,
            },
            _ => None,
        }
    }

    /// Whether the chip has a runner: it is scripted and its source is loaded.
    pub fn is_loaded(&self) -> (r: bool)
        ensures
            r == (self.runner() is Some),
    {
        match self {
            Chip::Yolol(chip) => chip.runner.is_some(),
            _ => false,
        }
    }

    /// Loads the source of a scripted chip into a fresh runner and keeps the
    /// runner if that succeeds.
    pub fn load(&mut self)
        ensures
            old(self).loads(final(self)),
    {
        let ghost mut trace: Option<(R, R, bool)> = None;
        match self {
            Chip::Yolol(chip) => {
                match &chip.path {
                    Some(path) => {
                        let mut runner = R::default();
                        let ghost fresh = runner;
                        let outcome = runner.parse(path.as_str());
                        proof {
                            trace = Some((fresh, runner, outcome is Some));
                        }
                        if outcome.is_some() {
                            chip.runner = Some(runner);
                        }
                    },
                    None => {},
                }
            },
            _ => {},
        }
        proof {
            if trace is Some {
                let (fresh, parsed, ok) = trace->0;
                assert(fresh.parses(old(self)->Yolol_0.script()->0, &parsed, ok));
            }
        }
    }

    /// Runs one tick of a loaded chip whose wait field counts as true.
    pub fn step(&mut self)
        ensures
            old(self).steps(final(self)),
    {
        match self {
            Chip::Yolol(chip) => {
                if chip.chip_wait.value().is_truthy() {
                    match &mut chip.runner {
                        Some(runner) => {
                            runner.step();
                        },
                        None => {},
                    }
                }
            },
            _ => {},
        }
    }

    /// Hands the bus values to the runner of a loaded chip.
    pub fn update_globals(&mut self, globals: Vec<Field>)
        ensures
            old(self).updates(models(globals@), final(self)),
    {
        match self {
            Chip::Yolol(chip) => {
                match &mut chip.runner {
                    Some(runner) => {
                        runner.update_globals(globals);
                    },
                    None => {},
                }
            },
            _ => {},
        }
    }

    /// The named values that a loaded chip shares; none for any other chip.
    pub fn get_global(&self) -> (r: Vec<Field>)
        ensures
            self.shares(models(r@)),
    {
        match self {
            Chip::Yolol(chip) => {
                match &chip.runner {
                    Some(runner) => {
                        return runner.get_global();
                    },
                    None => {},
                }
            },
            _ => {},
        }
        let out: Vec<Field> = Vec::new();
        assert(models(out@) =~= Seq::<FieldModel>::empty());
        out
    }
}

} // verus!
