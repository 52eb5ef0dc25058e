//! Sequences that the stages of the translator hand to one another, and
//! the merge of program fragments into one program.

use crate::error::TranslateError;
use crate::uasm::{
    CodeSectionView, DataView, Uasm, UasmCodeBlock, UasmCodeSection, UasmDataSection,
    UasmInstruction, UasmView,
};
use vstd::prelude::*;

verus! {

/// What interpreting one record gives: a fragment that belongs to the
/// scope of the module, or any other.
#[derive(Debug)]
pub enum Unit<T> {
    GlobalUnit { data: T },
    OtherUnit { data: T },
}

impl<T> Unit<T> {
    /// The fragment that this unit carries.
    pub open spec fn data(self) -> T {
        match self {
            Unit::GlobalUnit { data } => data,
            Unit::OtherUnit { data } => data,
        }
    }

    pub fn get_data(&self) -> (data: &T)
        ensures
            *data == self.data(),
    {
        match self {
            Unit::GlobalUnit { data } => data,
            Unit::OtherUnit { data } => data,
        }
    }

    /// Gives up the tag and keeps the fragment.
    pub fn into_data(self) -> (data: T)
        ensures
            data == self.data(),
    {
        match self {
            Unit::GlobalUnit { data } => data,
            Unit::OtherUnit { data } => data,
        }
    }
}

/// An ordered sequence of units: what came first stays first.
#[derive(Debug)]
pub struct Units<T>(pub Vec<T>);

impl<T> View for Units<T> {
    type V = Seq<T>;

    open spec fn view(&self) -> Seq<T> {
        self.0@
    }
}

impl<T> Units<T> {
    pub fn new() -> (units: Self)
        ensures
            units@ == Seq::<T>::empty(),
    {
        Units(Vec::new())
    }

    /// Appends `unit`.
    pub fn push(&mut self, unit: T)
        ensures
            final(self)@ == old(self)@.push(unit),
    {
        self.0.push(unit);
    }

    /// The number of units.
    pub fn len(&self) -> (count: usize)
        ensures
            count == self@.len(),
    {
        self.0.len()
    }

    /// The unit at `index`.
    pub fn get(&self, index: usize) -> (unit: &T)
        requires
            index < self@.len(),
        ensures
            *unit == self@[index as int],
    {
        &self.0[index]
    }
}

/// An ordered sequence of decoded items, in the order in which they were
/// met.
#[derive(Debug)]
pub struct ParsedData<T> {
    items: Vec<T>,
}

impl<T> View for ParsedData<T> {
    type V = Seq<T>;

    closed spec fn view(&self) -> Seq<T> {
        self.items@
    }
}

impl<T> ParsedData<T> {
    /// The sequence of the one item `data`.
    pub fn new(data: T) -> (parsed: ParsedData<T>)
        ensures
            parsed@ == seq![data],
    {
        let mut items = Vec::new();
        items.push(data);
        assert(items@ =~= seq![data]);
        ParsedData { items }
    }

    /// The sequence without items.
    pub fn empty() -> (parsed: ParsedData<T>)
        ensures
            parsed@ == Seq::<T>::empty(),
    {
        ParsedData { items: Vec::new() }
    }

    /// The items of `self` followed by those of `new`.
    pub fn update(self, new: Self) -> (parsed: Self)
        ensures
            parsed@ == self@ + new@,
    {
        let mut items = self.items;
        let mut more = new.items;
        items.append(&mut more);
        ParsedData { items }
    }

    /// The first item.
    pub fn get_data(&self) -> (data: &T)
        requires
            self@.len() > 0,
        ensures
            *data == self@[0],
    {
        &self.items[0]
    }

    /// The number of items.
    pub fn len(&self) -> (count: usize)
        ensures
            count == self@.len(),
    {
        self.items.len()
    }

    /// The item at `index`.
    pub fn get(&self, index: usize) -> (data: &T)
        requires
            index < self@.len(),
        ensures
            *data == self@[index as int],
    {
        &self.items[index]
    }
}

/// What can be interpreted as a `T`.
pub trait InterpretableAs<T>: Sized {
    /// Whether `outcome` is what interpreting `self` gives.
    spec fn interpretation(&self, outcome: Result<T, TranslateError>) -> bool;

    /// Interprets `self`.
    fn interpret(&self) -> (outcome: Result<T, TranslateError>)
        ensures
            self.interpretation(outcome),
    ;
}

/// Whether interpreting `item` can give a `T`.
pub open spec fn succeeds<S: InterpretableAs<T>, T>(item: S) -> bool {
    exists|unit: T| #[trigger] item.interpretation(Ok(unit))
}

impl<S> ParsedData<S> {
    /// Interprets the items in their order and collects what they give. The
    /// first item that fails ends the work, and its error is returned; no
    /// item after it is interpreted.
    pub fn interpret_all<T>(&self) -> (outcome: Result<Units<T>, TranslateError>) where
        S: InterpretableAs<T>,

        ensures
            match outcome {
                Ok(units) => {
                    &&& units@.len() == self@.len()
                    &&& forall|i: int|
                        0 <= i < self@.len() ==> (#[trigger] self@[i]).interpretation(
                            Ok(units@[i]),
                        )
                },
                Err(error) => exists|i: int|
                    {
                        &&& 0 <= i < self@.len()
                        &&& (#[trigger] self@[i]).interpretation(Err(error))
                        &&& forall|j: int| 0 <= j < i ==> succeeds::<S, T>(#[trigger] self@[j])
                    },
            },
    {
        let mut units: Units<T> = Units::new();
        let mut i: usize = 0;
        while i < self.items.len()
            invariant
                i <= self@.len(),
                units@.len() == i,
                forall|k: int| 0 <= k < i ==> (#[trigger] self@[k]).interpretation(Ok(units@[k])),
            decreases self@.len() - i,
        {
            match self.items[i].interpret() {
                Ok(unit) => units.push(unit),
                Err(error) => {
                    assert forall|j: int| 0 <= j < i implies succeeds::<S, T>(
                        #[trigger] self@[j],
                    ) by {
                        assert(self@[j].interpretation(Ok(units@[j])));
                    }
                    assert(self@[i as int].interpretation(Err(error)));
                    return Err(error);
                },
            }
            i += 1;
        }
        Ok(units)
    }
}

/// The program without sections.
pub open spec fn empty_program() -> UasmView {
    UasmView { data_section: None, code_section: None }
}

/// `program` after the fragment `unit` has been merged into it: the
/// declarations of `unit` come after those of `program`, and a code
/// section of `unit` takes the place of that of `program`.
pub open spec fn combine(program: UasmView, unit: UasmView) -> UasmView {
    UasmView {
        data_section: match (program.data_section, unit.data_section) {
            (Some(before), Some(after)) => Some(before + after),
            (Some(before), None) => Some(before),
            (None, after) => after,
        },
        code_section: match unit.code_section {
            Some(section) => Some(section),
            None => program.code_section,
        },
    }
}

/// The program that merging `units` in their order gives.
pub open spec fn merged(units: Seq<UasmView>) -> UasmView
    decreases units.len(),
{
    if units.len() == 0 {
        empty_program()
    } else {
        combine(merged(units.drop_last()), units.last())
    }
}

/// The fragments that `units` carry.
pub open spec fn programs(units: Seq<Unit<Uasm>>) -> Seq<UasmView> {
    units.map_values(|unit: Unit<Uasm>| unit.data()@)
}

/// Merging a fragment into a program, and a second into what that gives,
/// is merging into the program what the two fragments merge to.
pub proof fn lemma_combine_associative(a: UasmView, b: UasmView, c: UasmView)
    ensures
        combine(combine(a, b), c) == combine(a, combine(b, c)),
{
    let left = combine(combine(a, b), c);
    let right = combine(a, combine(b, c));
    match (a.data_section, b.data_section, c.data_section) {
        (Some(x), Some(y), Some(z)) => {
            assert((x + y) + z =~= x + (y + z));
        },
        _ => {},
    }
    assert(left.data_section == right.data_section);
}

/// The empty program changes nothing when a fragment is merged into it or
/// it into a program.
pub proof fn lemma_combine_empty(a: UasmView)
    ensures
        combine(empty_program(), a) == a,
        combine(a, empty_program()) == a,
{
}

/// Merging two sequences of units one after the other is merging what
/// each of them merges to.
pub proof fn lemma_merged_concat(first: Seq<UasmView>, second: Seq<UasmView>)
    ensures
        merged(first + second) == combine(merged(first), merged(second)),
    decreases second.len(),
{
    if second.len() == 0 {
        assert(first + second =~= first);
        lemma_combine_empty(merged(first));
    } else {
        let all = first + second;
        assert(all.drop_last() =~= first + second.drop_last());
        assert(all.last() == second.last());
        lemma_merged_concat(first, second.drop_last());
        lemma_combine_associative(merged(first), merged(second.drop_last()), second.last());
    }
}

/// The merge of one unit is that unit.
pub proof fn lemma_merged_one(a: UasmView)
    ensures
        merged(seq![a]) == a,
{
    assert(seq![a].drop_last() =~= Seq::<UasmView>::empty());
    assert(merged(seq![a].drop_last()) == empty_program());
    lemma_combine_empty(a);
}

/// Merging three units does not depend on how they are grouped: merging
/// the first two and then the third, or the first with what the last two
/// merge to, gives what merging the three in their order gives. Where each
/// has a data section, the merged data section holds the declarations of
/// the first, then those of the second, then those of the third.
pub proof fn lemma_merge_grouping(a: UasmView, b: UasmView, c: UasmView)
    ensures
        merged(seq![merged(seq![a, b]), c]) == merged(seq![a, b, c]),
        merged(seq![a, merged(seq![b, c])]) == merged(seq![a, b, c]),
        (a.data_section is Some && b.data_section is Some && c.data_section is Some) ==> merged(
            seq![a, b, c],
        ).data_section == Some(a.data_section->0 + b.data_section->0 + c.data_section->0),
{
    lemma_merged_one(a);
    lemma_merged_one(c);
    lemma_merged_one(merged(seq![a, b]));
    lemma_merged_one(merged(seq![b, c]));
    assert(seq![a, b, c] =~= seq![a, b] + seq![c]);
    assert(seq![a, b, c] =~= seq![a] + seq![b, c]);
    assert(seq![merged(seq![a, b]), c] =~= seq![merged(seq![a, b])] + seq![c]);
    assert(seq![a, merged(seq![b, c])] =~= seq![a] + seq![merged(seq![b, c])]);
    lemma_merged_concat(seq![a, b], seq![c]);
    lemma_merged_concat(seq![a], seq![b, c]);
    lemma_merged_concat(seq![merged(seq![a, b])], seq![c]);
    lemma_merged_concat(seq![a], seq![merged(seq![b, c])]);
    lemma_merged_one(b);
    assert(seq![a, b] =~= seq![a] + seq![b]);
    lemma_merged_concat(seq![a], seq![b]);
}

/// The items of `items` in the opposite order.
fn reversed<T>(items: Vec<T>) -> (turned: Vec<T>)
    ensures
        turned@ == items@.reverse(),
{
    let mut items = items;
    let mut turned: Vec<T> = Vec::new();
    let ghost all = items@;
    while items.len() > 0
        invariant
            items@.len() + turned@.len() == all.len(),
            forall|k: int| 0 <= k < items@.len() ==> items@[k] == all[k],
            forall|k: int| 0 <= k < turned@.len() ==> turned@[k] == all[all.len() - 1 - k],
        decreases items@.len(),
    {
        let item = items.pop().unwrap();
        turned.push(item);
    }
    assert(turned@ =~= all.reverse());
    turned
}

impl UasmCodeBlock {
    /// The block of the instructions of `units`, in their order.
    pub fn from(units: Units<UasmInstruction>) -> (block: UasmCodeBlock)
        ensures
            block@ == units@.map_values(|instruction: UasmInstruction| instruction@),
    {
        let mut block = UasmCodeBlock::new();
        let mut i: usize = 0;
        while i < units.len()
            invariant
                i <= units@.len(),
                block@ == units@.take(i as int).map_values(
                    |instruction: UasmInstruction| instruction@,
                ),
            decreases units@.len() - i,
        {
            block.push_instruction(units.get(i));
            assert(block@ =~= units@.take(i + 1).map_values(
                |instruction: UasmInstruction| instruction@,
            ));
            i += 1;
        }
        assert(units@.take(i as int) =~= units@);
        block
    }
}

/// The view of a data section that may be there.
pub open spec fn data_view(section: Option<UasmDataSection>) -> Option<Seq<DataView>> {
    match section {
        Some(section) => Some(section@),
        None => None,
    }
}

/// The view of a code section that may be there.
pub open spec fn code_view(section: Option<UasmCodeSection>) -> Option<CodeSectionView> {
    match section {
        Some(section) => Some(section@),
        None => None,
    }
}

impl Units<Unit<Uasm>> {
    /// Merges the fragments into one program, in their order.
    pub fn into(self) -> (program: Uasm)
        ensures
            program@ == merged(programs(self@)),
    {
        let ghost all = programs(self@);
        let ghost count = self@.len();
        let mut rest = reversed(self.0);
        let mut data_section: Option<UasmDataSection> = None;
        let mut code_section: Option<UasmCodeSection> = None;
        assert(all.take(0) =~= Seq::<UasmView>::empty());
        while rest.len() > 0
            invariant
                rest@.len() <= count,
                all.len() == count,
                forall|k: int|
                    0 <= k < rest@.len() ==> (#[trigger] rest@[k]).data()@ == all[count - 1 - k],
                (UasmView {
                    data_section: data_view(data_section),
                    code_section: code_view(code_section),
                }) == merged(all.take(count - rest@.len())),
            decreases rest@.len(),
        {
            let ghost done = count - rest@.len();
            let unit = rest.pop().unwrap();
            proof {
                let next = all.take(done + 1);
                assert(next.drop_last() =~= all.take(done));
                assert(next.last() == unit.data()@);
            }
            let Uasm { data_section: unit_data, code_section: unit_code } = unit.into_data();
            if let Some(after) = unit_data {
                data_section = match data_section {
                    Some(before) => {
                        let mut before = before;
                        before.append(after);
                        Some(before)
                    },
                    None => Some(after),
                };
            }
            if let Some(section) = unit_code {
                code_section = Some(section);
            }
        }
        assert(all.take(count as int) =~= all);
        Uasm::new(data_section, code_section)
    }

    /// Merges the fragments and writes the program as text. A program with
    /// a part that has no text gives an error and no text.
    pub fn codegen(self) -> (generated: Result<String, TranslateError>)
        ensures
            match generated {
                Ok(text) => {
                    &&& crate::codegen::renderable(merged(programs(self@)))
                    &&& text@ == crate::codegen::program_text(merged(programs(self@)))
                },
                Err(error) => {
                    &&& !crate::codegen::renderable(merged(programs(self@)))
                    &&& error@ == crate::codegen::render_error(merged(programs(self@)))
                },
            },
    {
        let program = self.into();
        program.codegen()
    }
}

} // verus!
