//! The textual instruction form produced by the program loader, and its
//! translation into [`Operation`] values: a label-resolution pass over the
//! raw instruction list, then a per-instruction decoding step.
//!
//! Reading program text from disk belongs to the loader outside this crate;
//! this module only works on already-parsed values.

use vstd::prelude::*;
use vstd::string::StringExecFns;

use crate::Location;
use crate::Operation;

verus! {

/// The operand of one textual instruction.
#[derive(Debug, Clone)]
pub enum JsonOperand {
    Label(String),
    Address(u32),
    Cell(u32),
}

/// One textual instruction: an operation name and an optional operand.
#[derive(Debug, Clone)]
pub struct JsonOperation {
    pub operation: String,
    pub operand: Option<JsonOperand>,
}

impl JsonOperation {
    /// Packs an operation name and an operand into a textual instruction.
    pub fn new(operation: String, operand: Option<JsonOperand>) -> (r: Self)
        ensures
            r.operation == operation,
            r.operand == operand,
    {
        Self { operation, operand }
    }
}

/// The abstract content of a label mapping: each pair as its character
/// sequence and its instruction index.
pub open spec fn mapping_view(mapping: Seq<(String, usize)>) -> Seq<(Seq<char>, int)> {
    mapping.map_values(|p: (String, usize)| (p.0@, p.1 as int))
}

/// Is `j` a `label` instruction carrying a label-name operand?
pub open spec fn is_label_entry(j: JsonOperation) -> bool {
    j.operation@ == "label"@ && j.operand matches Some(JsonOperand::Label(_))
}

/// The label name carried by a label instruction.
pub open spec fn label_name(j: JsonOperation) -> Seq<char> {
    match j.operand {
        Some(JsonOperand::Label(name)) => name@,
        _ => Seq::empty(),
    }
}

/// The mapping that the label-resolution pass builds over `code`: one pair
/// per label instruction, in program order, carrying the label's name and
/// the position of its defining instruction.
pub open spec fn spec_label_positions(code: Seq<JsonOperation>) -> Seq<(Seq<char>, int)>
    decreases code.len(),
{
    if code.len() == 0 {
        Seq::empty()
    } else {
        let prefix = spec_label_positions(code.drop_last());
        if is_label_entry(code.last()) {
            prefix.push((label_name(code.last()), code.len() - 1))
        } else {
            prefix
        }
    }
}

/// The position a label resolves to: that of the *last* pair bearing the
/// name, or `None` when no pair does. When one label name is defined more
/// than once, the last definition deliberately wins.
pub open spec fn spec_position_from_label(label: Seq<char>, mapping: Seq<(Seq<char>, int)>) -> Option<int>
    decreases mapping.len(),
{
    if mapping.len() == 0 {
        None
    } else if mapping.last().0 == label {
        Some(mapping.last().1)
    } else {
        spec_position_from_label(label, mapping.drop_last())
    }
}

/// Looking a label up picks the last pair bearing it: if `mapping[k]` holds
/// the label and no later pair does, the lookup yields `mapping[k]`'s
/// position. Duplicate label names therefore keep the last occurrence.
pub proof fn lemma_last_occurrence_wins(label: Seq<char>, mapping: Seq<(Seq<char>, int)>, k: int)
    requires
        0 <= k < mapping.len(),
        mapping[k].0 == label,
        forall|j: int| k < j < mapping.len() ==> mapping[j].0 != label,
    ensures
        spec_position_from_label(label, mapping) == Some(mapping[k].1),
    decreases mapping.len(),
{
    if k < mapping.len() - 1 {
        assert(mapping.last().0 != label);
        lemma_last_occurrence_wins(label, mapping.drop_last(), k);
    }
}

/// A textual instruction the decoder accepts: a known operation name with
/// the kind of operand it needs, and, for the jumps, a label that the
/// mapping resolves.
pub open spec fn op_code_wf(j: JsonOperation, mapping: Seq<(Seq<char>, int)>) -> bool {
    ||| j.operation@ == "inbox"@
    ||| j.operation@ == "outbox"@
    ||| j.operation@ == "label"@
    ||| ((j.operation@ == "add"@ || j.operation@ == "copyfrom"@ || j.operation@ == "copyto"@) && (
    j.operand matches Some(o) && !(o matches JsonOperand::Label(_))))
    ||| ((j.operation@ == "jmp"@ || j.operation@ == "jez"@) && (j.operand matches Some(
        JsonOperand::Label(name),
    ) && spec_position_from_label(name@, mapping) is Some))
}

/// The memory location named by a cell-kind operand.
pub open spec fn operand_location(o: JsonOperand) -> Location {
    match o {
        JsonOperand::Address(cell) => Location::Address(cell as usize),
        JsonOperand::Cell(cell) => Location::Cell(cell as usize),
        JsonOperand::Label(_) => Location::Cell(0),
    }
}

/// The memory location carried by `j`'s operand; meaningful when `j` is a
/// well-formed cell-operand instruction.
pub open spec fn operand_location_of(j: JsonOperation) -> Location {
    match j.operand {
        Some(o) => operand_location(o),
        None => Location::Cell(0),
    }
}

/// The jump target carried by `j`'s label operand, resolved through the
/// mapping; meaningful when `j` is a well-formed jump instruction.
pub open spec fn target_of(j: JsonOperation, mapping: Seq<(Seq<char>, int)>) -> usize {
    match j.operand {
        Some(JsonOperand::Label(name)) => (match spec_position_from_label(name@, mapping) {
            Some(p) => p as usize,
            None => 0,
        }),
        _ => 0,
    }
}

/// The instruction that [`to_operator`] decodes `j` into; meaningful when
/// [`op_code_wf`] holds.
pub open spec fn spec_to_operator(j: JsonOperation, mapping: Seq<(Seq<char>, int)>) -> Operation {
    if j.operation@ == "inbox"@ {
        Operation::Inbox
    } else if j.operation@ == "add"@ {
        Operation::Add { cell: operand_location_of(j) }
    } else if j.operation@ == "copyfrom"@ {
        Operation::CopyFrom { cell: operand_location_of(j) }
    } else if j.operation@ == "copyto"@ {
        Operation::CopyTo { cell: operand_location_of(j) }
    } else if j.operation@ == "label"@ {
        Operation::Label
    } else if j.operation@ == "jmp"@ {
        Operation::Jump { next_operation: target_of(j, mapping) }
    } else if j.operation@ == "jez"@ {
        Operation::JumpEqualsZero { next_operation: target_of(j, mapping) }
    } else {
        Operation::Outbox
    }
}

/// The operation names that take a cell operand or a label operand differ
/// from the names that take none; the decoder leans on this to know which
/// disjunct of [`op_code_wf`] speaks about the instruction at hand.
proof fn lemma_distinct_op_names()
    ensures
        "add"@ != "outbox"@,
        "add"@ != "label"@,
        "add"@ != "jmp"@,
        "add"@ != "jez"@,
        "copyfrom"@ != "outbox"@,
        "copyfrom"@ != "label"@,
        "copyfrom"@ != "jmp"@,
        "copyfrom"@ != "jez"@,
        "copyto"@ != "outbox"@,
        "copyto"@ != "label"@,
        "copyto"@ != "jmp"@,
        "copyto"@ != "jez"@,
        "jmp"@ != "outbox"@,
        "jez"@ != "outbox"@,
{
    reveal_strlit("add");
    reveal_strlit("copyfrom");
    reveal_strlit("copyto");
    reveal_strlit("label");
    reveal_strlit("jmp");
    reveal_strlit("jez");
    reveal_strlit("outbox");
    assert("add"@.len() == 3);
    assert("copyfrom"@.len() == 8);
    assert("copyto"@.len() == 6);
    assert("label"@.len() == 5);
    assert("jmp"@.len() == 3);
    assert("jez"@.len() == 3);
    assert("outbox"@.len() == 6);
    assert("add"@[0] == 'a');
    assert("jmp"@[0] == 'j');
    assert("jez"@[0] == 'j');
    assert("jmp"@[1] == 'm');
    assert("jez"@[1] == 'e');
    assert("copyto"@[0] == 'c');
    assert("outbox"@[0] == 'o');
}

/// Decodes one textual instruction against a resolved label mapping.
///
/// The textual form knows the names `inbox`, `outbox`, `label`, `add`,
/// `copyfrom`, `copyto`, `jmp` and `jez`; the remaining instruction kinds
/// are built directly as [`Operation`] values by whoever assembles a
/// program.
pub fn to_operator(json_op: JsonOperation, labels_mapping: &Vec<(String, usize)>) -> (r: Operation)
    requires
        op_code_wf(json_op, mapping_view(labels_mapping@)),
    ensures
        r == spec_to_operator(json_op, mapping_view(labels_mapping@)),
{
    proof {
        lemma_distinct_op_names();
    }
    if json_op.operation == String::from_str("inbox") {
        Operation::Inbox
    } else if json_op.operation == String::from_str("add") {
        let cell_to_add = match json_op.operand {
            Some(JsonOperand::Address(cell)) => Location::Address(cell as usize),
            Some(JsonOperand::Cell(cell)) => Location::Cell(cell as usize),
            _ => vstd::pervasive::unreached(),
        };
        Operation::Add { cell: cell_to_add }
    } else if json_op.operation == String::from_str("copyfrom") {
        let cell = match json_op.operand {
            Some(JsonOperand::Address(cell)) => Location::Address(cell as usize),
            Some(JsonOperand::Cell(cell)) => Location::Cell(cell as usize),
            _ => vstd::pervasive::unreached(),
        };
        Operation::CopyFrom { cell }
    } else if json_op.operation == String::from_str("copyto") {
        let cell = match json_op.operand {
            Some(JsonOperand::Address(cell)) => Location::Address(cell as usize),
            Some(JsonOperand::Cell(cell)) => Location::Cell(cell as usize),
            _ => vstd::pervasive::unreached(),
        };
        Operation::CopyTo { cell }
    } else if json_op.operation == String::from_str("label") {
        Operation::Label
    } else if json_op.operation == String::from_str("jmp") {
        match &json_op.operand {
            Some(JsonOperand::Label(label_name)) => {
                let next_position = position_from_label(label_name, labels_mapping);
                Operation::Jump { next_operation: next_position.unwrap() }
            },
            _ => vstd::pervasive::unreached(),
        }
    } else if json_op.operation == String::from_str("jez") {
        match &json_op.operand {
            Some(JsonOperand::Label(label_name)) => {
                let next_position = position_from_label(label_name, labels_mapping);
                Operation::JumpEqualsZero { next_operation: next_position.unwrap() }
            },
            _ => vstd::pervasive::unreached(),
        }
    } else if json_op.operation == String::from_str("outbox") {
        Operation::Outbox
    } else {
        vstd::pervasive::unreached()
    }
}

/// Scans the raw instruction list once and builds the label mapping: the
/// name and position of every `label` instruction, in program order.
pub fn labels_to_positions(source_code: &Vec<JsonOperation>) -> (r: Vec<(String, usize)>)
    requires
        forall|k: int|
            0 <= k < source_code@.len() && source_code@[k].operation@ == "label"@
                ==> source_code@[k].operand is Some,
    ensures
        mapping_view(r@) == spec_label_positions(source_code@),
{
    let mut labels: Vec<(String, usize)> = Vec::new();
    let mut index: usize = 0;
    proof {
        assert(mapping_view(labels@) =~= spec_label_positions(
            source_code@.subrange(0, index as int),
        ));
    }
    while index < source_code.len()
        invariant
            index <= source_code@.len(),
            mapping_view(labels@) == spec_label_positions(source_code@.subrange(0, index as int)),
        decreases source_code@.len() - index,
    {
        let ghost prefix = source_code@.subrange(0, index as int);
        let operation = &source_code[index];
        if operation.operation == String::from_str("label") {
            match &operation.operand {
                Some(JsonOperand::Label(name)) => {
                    labels.push((name.clone(), index));
                },
                _ => {},
            }
        }
        index = index + 1;
        proof {
            let longer = source_code@.subrange(0, index as int);
            assert(longer.drop_last() =~= prefix);
            assert(longer.last() == source_code@[index - 1]);
            assert(mapping_view(labels@) =~= spec_label_positions(longer));
        }
    }
    proof {
        assert(source_code@.subrange(0, source_code@.len() as int) =~= source_code@);
    }
    labels
}

/// Resolves a label name through the mapping, favoring the last pair that
/// bears it.
pub fn position_from_label(label: &String, mapping: &Vec<(String, usize)>) -> (r: Option<usize>)
    ensures
        match r {
            Some(p) => spec_position_from_label(label@, mapping_view(mapping@)) == Some(p as int),
            None => spec_position_from_label(label@, mapping_view(mapping@)) is None,
        },
{
    let mut i: usize = mapping.len();
    proof {
        assert(mapping_view(mapping@).subrange(0, i as int) =~= mapping_view(mapping@));
    }
    while i > 0
        invariant
            i <= mapping@.len(),
            spec_position_from_label(label@, mapping_view(mapping@))
                == spec_position_from_label(label@, mapping_view(mapping@).subrange(0, i as int)),
        decreases i,
    {
        i = i - 1;
        let ghost longer = mapping_view(mapping@).subrange(0, i + 1);
        proof {
            assert(longer.last() == mapping_view(mapping@)[i as int]);
            assert(longer.drop_last() =~= mapping_view(mapping@).subrange(0, i as int));
        }
        if mapping[i].0 == *label {
            return Some(mapping[i].1);
        }
    }
    None
}

} // verus!
