use crate::record::{EntityRecord, ServiceRecord};
use crate::role::{classify, role_tags, texts};
use vstd::prelude::*;

verus! {

/// The tags of a record after a probe whose output was `output`: its own
/// tags, then the role tags that the output stands for.
pub open spec fn updated_tags(
    existing: Seq<Seq<char>>,
    output: Seq<char>,
    result_true: Seq<char>,
    result_false: Seq<char>,
) -> Seq<Seq<char>> {
    existing + role_tags(output, result_true, result_false)
}

/// Classifies the probe output and turns the record into the registration
/// that replaces it: the role tag, if any, is appended after the record's own
/// tags, and every other field passes through unchanged.
pub fn tagged_entity(
    record: ServiceRecord,
    output: &String,
    result_true: &String,
    result_false: &String,
) -> (e: EntityRecord)
    ensures
        e.datacenter == record.datacenter,
        e.id == record.id,
        e.node == record.node,
        e.address == record.address,
        e.tagged_addresses == record.tagged_addresses,
        e.node_meta == record.node_meta,
        e.service.id == record.service_id,
        e.service.service == record.service_name,
        e.service.port == record.service_port,
        e.service.tags@.subrange(0, record.service_tags@.len() as int) == record.service_tags@,
        texts(e.service.tags@) == updated_tags(
            texts(record.service_tags@),
            output@,
            result_true@,
            result_false@,
        ),
{
    let tags = classify(output, result_true, result_false);
    let ghost own = record.service_tags@;
    let ghost added = tags@;
    let e = record.into_entity(tags);
    assert(e.service.tags@.subrange(0, own.len() as int) =~= own);
    assert(texts(own + added) =~= texts(own) + texts(added));
    e
}

/// Tagging keeps a record's own tags first, in their order, and adds exactly
/// the classified tags after them: the count grows by the number of those
/// tags, which is one when the output matches an expected string and zero
/// otherwise.
pub proof fn tags_appended_after_existing(
    existing: Seq<Seq<char>>,
    output: Seq<char>,
    result_true: Seq<char>,
    result_false: Seq<char>,
)
    ensures
        updated_tags(existing, output, result_true, result_false).len() == existing.len()
            + role_tags(output, result_true, result_false).len(),
        updated_tags(existing, output, result_true, result_false).subrange(0, existing.len() as int)
            == existing,
        updated_tags(existing, output, result_true, result_false).skip(existing.len() as int)
            == role_tags(output, result_true, result_false),
        role_tags(output, result_true, result_false).len() == if output == result_true || output
            == result_false {
            1int
        } else {
            0int
        },
{
    let u = updated_tags(existing, output, result_true, result_false);
    assert(u.subrange(0, existing.len() as int) =~= existing);
    assert(u.skip(existing.len() as int) =~= role_tags(output, result_true, result_false));
}

} // verus!
