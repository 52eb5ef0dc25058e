//! The hash table that holds the code blocks of a code section by label.

use crate::uasm::UasmCodeBlock;
use vstd::prelude::*;

verus! {

/// A `hashbrown::HashMap` from label text to code block.
#[verifier::external_body]
#[derive(Debug)]
pub struct BlockTable {
    inner: hashbrown::HashMap<String, UasmCodeBlock>,
}

/// The blocks that a table holds, by the text of their labels.
pub uninterp spec fn table_blocks(table: BlockTable) -> Map<Seq<char>, UasmCodeBlock>;

/// The contents of a table that holds nothing.
pub open spec fn no_blocks() -> Map<Seq<char>, UasmCodeBlock> {
    Map::empty()
}

/// `hashbrown::HashMap::new`: a table that holds no block.
#[verifier::external_body]
pub(crate) fn table_new() -> (table: BlockTable)
    ensures
        table_blocks(table) == no_blocks(),
{
    BlockTable { inner: hashbrown::HashMap::new() }
}

/// `hashbrown::HashMap::insert`: afterwards `label` leads to `block`, and
/// every other label to what it led to before. Returns the block that
/// `label` led to before, if there was one.
#[verifier::external_body]
pub(crate) fn table_insert(table: &mut BlockTable, label: String, block: UasmCodeBlock) -> (previous:
    Option<UasmCodeBlock>)
    ensures
        table_blocks(*final(table)) == table_blocks(*old(table)).insert(label@, block),
        previous == if table_blocks(*old(table)).contains_key(label@) {
            Some(table_blocks(*old(table))[label@])
        } else {
            None
        },
{
    table.inner.insert(label, block)
}

/// `hashbrown::HashMap::get`: the block that `label` leads to, if there is
/// one.
#[verifier::external_body]
pub(crate) fn table_get<'a>(table: &'a BlockTable, label: &str) -> (found: Option<&'a UasmCodeBlock>)
    ensures
        found == if table_blocks(*table).contains_key(label@) {
            Some(&table_blocks(*table)[label@])
        } else {
            None
        },
{
    table.inner.get(label)
}

} // verus!
