//! The calls into `flatbuffers::FlatBufferBuilder` that encoding makes.
//!
//! A builder is deterministic: the bytes it finishes with, and each offset it
//! hands out, depend only on the calls made on it since it was created. The
//! contracts below therefore track a builder by the sequence of calls made on
//! it (`builder_steps`) and name the offsets and the finished bytes as
//! functions of that sequence.
use vstd::prelude::*;

use flatbuffers::FlatBufferBuilder;
use vstd::utf8::{decode_utf8, encode_utf8};

verus! {

/// The upper bound that the builder puts on any one reservation of space.
pub const MAX_BUFFER_SIZE: u64 = 0x8000_0000;

/// One call made on a builder.
pub enum BuildStep {
    /// `create_string` with the given characters.
    CreateString(Seq<char>),
    /// `start_table`.
    StartTable,
    /// `push_slot_always` of an offset (to a string) into the open table.
    PushOffsetSlot { slot: u16, offset: u32 },
    /// `push_slot` of a `u32` with its default into the open table.
    PushU32Slot { slot: u16, value: u32, default: u32 },
    /// `push_slot` of a `u8` with its default into the open table.
    PushU8Slot { slot: u16, value: u8, default: u8 },
    /// `end_table` of the table started at `start`.
    EndTable { start: u32 },
    /// `finish_size_prefixed` with the table at `root` and no file identifier.
    FinishSizePrefixed { root: u32 },
}

/// Declares `flatbuffers::FlatBufferBuilder`, so that builders can be created,
/// passed and called from verified code; nothing inside one is visible.
#[verifier::external_type_specification]
#[verifier::external_body]
pub struct ExFlatBufferBuilder<'fbb>(FlatBufferBuilder<'fbb>);

/// The calls made so far on a builder, oldest first.
pub uninterp spec fn builder_steps(builder: FlatBufferBuilder<'static>) -> Seq<BuildStep>;

/// The bytes that `finished_data` gives after the given calls.
pub uninterp spec fn finished_bytes(steps: Seq<BuildStep>) -> Seq<u8>;

/// The offset that `create_string` returns when it is the last of the given calls.
pub uninterp spec fn created_string_offset(steps: Seq<BuildStep>) -> u32;

/// The offset that `start_table` returns when it is the last of the given calls.
pub uninterp spec fn table_start_offset(steps: Seq<BuildStep>) -> u32;

/// The offset that `end_table` returns when it is the last of the given calls.
pub uninterp spec fn table_end_offset(steps: Seq<BuildStep>) -> u32;

/// Whether a table has been started and not yet ended.
pub open spec fn table_open(steps: Seq<BuildStep>) -> bool
    decreases steps.len(),
{
    if steps.len() == 0 {
        false
    } else {
        match steps.last() {
            BuildStep::StartTable => true,
            BuildStep::EndTable { .. } => false,
            _ => table_open(steps.drop_last()),
        }
    }
}

/// Whether the buffer has been finished.
pub open spec fn finished(steps: Seq<BuildStep>) -> bool
    decreases steps.len(),
{
    if steps.len() == 0 {
        false
    } else {
        match steps.last() {
            BuildStep::FinishSizePrefixed { .. } => true,
            _ => finished(steps.drop_last()),
        }
    }
}

/// The number of slots pushed into the open table.
pub open spec fn open_table_slots(steps: Seq<BuildStep>) -> nat
    decreases steps.len(),
{
    if steps.len() == 0 {
        0
    } else {
        match steps.last() {
            BuildStep::StartTable => 0,
            BuildStep::PushOffsetSlot { .. } => open_table_slots(steps.drop_last()) + 1,
            BuildStep::PushU32Slot { .. } => open_table_slots(steps.drop_last()) + 1,
            BuildStep::PushU8Slot { .. } => open_table_slots(steps.drop_last()) + 1,
            _ => open_table_slots(steps.drop_last()),
        }
    }
}

/// The offset of the table that is open (the result of its `start_table`).
pub open spec fn open_table_start(steps: Seq<BuildStep>) -> u32
    decreases steps.len(),
{
    if steps.len() == 0 {
        0
    } else {
        match steps.last() {
            BuildStep::StartTable => table_start_offset(steps),
            _ => open_table_start(steps.drop_last()),
        }
    }
}

/// A bound on the bytes that the given calls have written: a string takes
/// its UTF-8 bytes, a length, a terminator and padding; any other call less
/// than 80 bytes (the largest is a vtable for slots below 64).
pub open spec fn space_bound(steps: Seq<BuildStep>) -> nat
    decreases steps.len(),
{
    if steps.len() == 0 {
        0
    } else {
        space_bound(steps.drop_last()) + match steps.last() {
            BuildStep::CreateString(s) => encode_utf8(s).len() + 8,
            _ => 80nat,
        }
    }
}

/// `offset` was returned by one of the `create_string` calls among `steps`.
pub open spec fn is_string_offset(steps: Seq<BuildStep>, offset: u32) -> bool {
    exists|i: int|
        0 <= i < steps.len() && steps[i] is CreateString && offset == #[trigger] created_string_offset(
            steps.take(i + 1),
        )
}

/// `offset` was returned by one of the `end_table` calls among `steps`.
pub open spec fn is_table_offset(steps: Seq<BuildStep>, offset: u32) -> bool {
    exists|i: int|
        0 <= i < steps.len() && steps[i] is EndTable && offset == #[trigger] table_end_offset(
            steps.take(i + 1),
        )
}

/// A slot id (a vtable byte offset) of the kind the tables here use: a field
/// index below 30, so that the vtable stays small.
pub open spec fn valid_slot(slot: u16) -> bool {
    4 <= slot < 64 && slot % 2 == 0
}

/// The slot pushes made into the open table, oldest first.
pub open spec fn open_table_pushes(steps: Seq<BuildStep>) -> Seq<BuildStep>
    decreases steps.len(),
{
    if steps.len() == 0 {
        Seq::empty()
    } else {
        match steps.last() {
            BuildStep::StartTable => Seq::empty(),
            BuildStep::PushOffsetSlot { .. } => open_table_pushes(steps.drop_last()).push(
                steps.last(),
            ),
            BuildStep::PushU32Slot { .. } => open_table_pushes(steps.drop_last()).push(steps.last()),
            BuildStep::PushU8Slot { .. } => open_table_pushes(steps.drop_last()).push(steps.last()),
            _ => open_table_pushes(steps.drop_last()),
        }
    }
}

/// The slot that a push names (0 for any other call).
pub open spec fn pushed_slot(step: BuildStep) -> u16 {
    match step {
        BuildStep::PushOffsetSlot { slot, .. } => slot,
        BuildStep::PushU32Slot { slot, .. } => slot,
        BuildStep::PushU8Slot { slot, .. } => slot,
        _ => 0,
    }
}

/// No slot is pushed twice.
pub open spec fn distinct_slots(pushes: Seq<BuildStep>) -> bool {
    forall|i: int, j: int|
        0 <= i < j < pushes.len() ==> pushed_slot(#[trigger] pushes[i]) != pushed_slot(
            #[trigger] pushes[j],
        )
}

/// How one more call changes the mode, pushes, open table, space bound and
/// handed-out offsets of a sequence of calls.
pub proof fn lemma_push_step(steps: Seq<BuildStep>, step: BuildStep)
    ensures
        table_open(steps.push(step)) == match step {
            BuildStep::StartTable => true,
            BuildStep::EndTable { .. } => false,
            _ => table_open(steps),
        },
        finished(steps.push(step)) == (finished(steps) || step is FinishSizePrefixed),
        open_table_slots(steps.push(step)) == match step {
            BuildStep::StartTable => 0,
            BuildStep::PushOffsetSlot { .. } => open_table_slots(steps) + 1,
            BuildStep::PushU32Slot { .. } => open_table_slots(steps) + 1,
            BuildStep::PushU8Slot { .. } => open_table_slots(steps) + 1,
            _ => open_table_slots(steps),
        },
        open_table_pushes(steps.push(step)) == match step {
            BuildStep::StartTable => Seq::empty(),
            BuildStep::PushOffsetSlot { .. } => open_table_pushes(steps).push(step),
            BuildStep::PushU32Slot { .. } => open_table_pushes(steps).push(step),
            BuildStep::PushU8Slot { .. } => open_table_pushes(steps).push(step),
            _ => open_table_pushes(steps),
        },
        open_table_start(steps.push(step)) == match step {
            BuildStep::StartTable => table_start_offset(steps.push(step)),
            _ => open_table_start(steps),
        },
        space_bound(steps.push(step)) == space_bound(steps) + match step {
            BuildStep::CreateString(s) => encode_utf8(s).len() + 8,
            _ => 80nat,
        },
        forall|o: u32|
            is_string_offset(steps, o) ==> #[trigger] is_string_offset(steps.push(step), o),
        forall|o: u32| is_table_offset(steps, o) ==> #[trigger] is_table_offset(steps.push(step), o),
        step is CreateString ==> is_string_offset(
            steps.push(step),
            created_string_offset(steps.push(step)),
        ),
        step is EndTable ==> is_table_offset(steps.push(step), table_end_offset(steps.push(step))),
{
    let all = steps.push(step);
    assert(all.drop_last() =~= steps);
    assert(all.take(all.len() as int) =~= all);
    assert forall|o: u32| is_string_offset(steps, o) implies #[trigger] is_string_offset(all, o) by {
        let i = choose|i: int|
            0 <= i < steps.len() && steps[i] is CreateString && o == #[trigger] created_string_offset(
                steps.take(i + 1),
            );
        assert(all.take(i + 1) =~= steps.take(i + 1));
        assert(o == created_string_offset(all.take(i + 1)));
    }
    assert forall|o: u32| is_table_offset(steps, o) implies #[trigger] is_table_offset(all, o) by {
        let i = choose|i: int|
            0 <= i < steps.len() && steps[i] is EndTable && o == #[trigger] table_end_offset(
                steps.take(i + 1),
            );
        assert(all.take(i + 1) =~= steps.take(i + 1));
        assert(o == table_end_offset(all.take(i + 1)));
    }
    if step is CreateString {
        let k = steps.len() as int;
        assert(created_string_offset(all) == created_string_offset(all.take(k + 1)));
    }
    if step is EndTable {
        let k = steps.len() as int;
        assert(table_end_offset(all) == table_end_offset(all.take(k + 1)));
    }
}

/// Calls `FlatBufferBuilder::new`. Claims that the new builder has had no
/// calls made on it.
#[verifier::external_body]
pub(crate) fn builder_new() -> (builder: FlatBufferBuilder<'static>)
    ensures
        builder_steps(builder) == Seq::<BuildStep>::empty(),
{
    FlatBufferBuilder::new()
}

/// Calls `FlatBufferBuilder::create_string`. Claims that the call is recorded
/// and that the returned offset is `created_string_offset` of the calls so
/// far. The source panics (in debug builds) inside a table, and when a
/// reservation exceeds 2 GiB; the `requires` keeps clear of both, and of
/// offsets that no longer fit in 32 bits.
#[verifier::external_body]
pub(crate) fn builder_create_string(builder: &mut FlatBufferBuilder<'static>, s: &str) -> (offset: u32)
    requires
        !table_open(builder_steps(*old(builder))),
        !finished(builder_steps(*old(builder))),
        space_bound(builder_steps(*old(builder))) + encode_utf8(s@).len() + 8 <= MAX_BUFFER_SIZE,
    ensures
        builder_steps(*final(builder)) == builder_steps(*old(builder)).push(
            BuildStep::CreateString(s@),
        ),
        offset == created_string_offset(builder_steps(*final(builder))),
{
    builder.create_string(s).value()
}

/// Calls `FlatBufferBuilder::start_table`. Claims that the call is recorded
/// and that the returned offset is `table_start_offset` of the calls so far.
#[verifier::external_body]
pub(crate) fn builder_start_table(builder: &mut FlatBufferBuilder<'static>) -> (start: u32)
    requires
        !table_open(builder_steps(*old(builder))),
        !finished(builder_steps(*old(builder))),
        space_bound(builder_steps(*old(builder))) + 80 <= MAX_BUFFER_SIZE,
    ensures
        builder_steps(*final(builder)) == builder_steps(*old(builder)).push(BuildStep::StartTable),
        start == table_start_offset(builder_steps(*final(builder))),
{
    builder.start_table().value()
}

/// Calls `FlatBufferBuilder::push_slot_always` with a string offset. Claims
/// only that the call is recorded.
#[verifier::external_body]
pub(crate) fn builder_push_offset_slot(builder: &mut FlatBufferBuilder<'static>, slot: u16, offset: u32)
    requires
        table_open(builder_steps(*old(builder))),
        open_table_slots(builder_steps(*old(builder))) < 16,
        valid_slot(slot),
        is_string_offset(builder_steps(*old(builder)), offset),
        space_bound(builder_steps(*old(builder))) + 80 <= MAX_BUFFER_SIZE,
    ensures
        builder_steps(*final(builder)) == builder_steps(*old(builder)).push(
            BuildStep::PushOffsetSlot { slot, offset },
        ),
{
    builder.push_slot_always::<flatbuffers::WIPOffset<&str>>(slot, flatbuffers::WIPOffset::new(offset))
}

/// Calls `FlatBufferBuilder::push_slot` with a `u32` and its default. Claims
/// only that the call is recorded.
#[verifier::external_body]
pub(crate) fn builder_push_u32_slot(
    builder: &mut FlatBufferBuilder<'static>,
    slot: u16,
    value: u32,
    default: u32,
)
    requires
        table_open(builder_steps(*old(builder))),
        open_table_slots(builder_steps(*old(builder))) < 16,
        valid_slot(slot),
        space_bound(builder_steps(*old(builder))) + 80 <= MAX_BUFFER_SIZE,
    ensures
        builder_steps(*final(builder)) == builder_steps(*old(builder)).push(
            BuildStep::PushU32Slot { slot, value, default },
        ),
{
    builder.push_slot::<u32>(slot, value, default)
}

/// Calls `FlatBufferBuilder::push_slot` with a `u8` and its default. Claims
/// only that the call is recorded.
#[verifier::external_body]
pub(crate) fn builder_push_u8_slot(
    builder: &mut FlatBufferBuilder<'static>,
    slot: u16,
    value: u8,
    default: u8,
)
    requires
        table_open(builder_steps(*old(builder))),
        open_table_slots(builder_steps(*old(builder))) < 16,
        valid_slot(slot),
        space_bound(builder_steps(*old(builder))) + 80 <= MAX_BUFFER_SIZE,
    ensures
        builder_steps(*final(builder)) == builder_steps(*old(builder)).push(
            BuildStep::PushU8Slot { slot, value, default },
        ),
{
    builder.push_slot::<u8>(slot, value, default)
}

/// Calls `FlatBufferBuilder::end_table` on the open table. Claims that the
/// call is recorded and that the returned offset is `table_end_offset` of the
/// calls so far.
#[verifier::external_body]
pub(crate) fn builder_end_table(builder: &mut FlatBufferBuilder<'static>, start: u32) -> (end: u32)
    requires
        table_open(builder_steps(*old(builder))),
        start == open_table_start(builder_steps(*old(builder))),
        space_bound(builder_steps(*old(builder))) + 80 <= MAX_BUFFER_SIZE,
    ensures
        builder_steps(*final(builder)) == builder_steps(*old(builder)).push(
            BuildStep::EndTable { start },
        ),
        end == table_end_offset(builder_steps(*final(builder))),
{
    builder.end_table(flatbuffers::WIPOffset::new(start)).value()
}

/// Calls `FlatBufferBuilder::finish_size_prefixed` with no file identifier.
/// Claims only that the call is recorded.
#[verifier::external_body]
pub(crate) fn builder_finish_size_prefixed(builder: &mut FlatBufferBuilder<'static>, root: u32)
    requires
        !table_open(builder_steps(*old(builder))),
        !finished(builder_steps(*old(builder))),
        is_table_offset(builder_steps(*old(builder)), root),
        space_bound(builder_steps(*old(builder))) + 80 <= MAX_BUFFER_SIZE,
    ensures
        builder_steps(*final(builder)) == builder_steps(*old(builder)).push(
            BuildStep::FinishSizePrefixed { root },
        ),
{
    builder.finish_size_prefixed(
        flatbuffers::WIPOffset::<flatbuffers::TableFinishedWIPOffset>::new(root),
        None,
    )
}

/// The little-endian `u16` at position `i`.
pub open spec fn le_u16_at(b: Seq<u8>, i: int) -> int {
    b[i] + 256 * b[i + 1]
}

/// The little-endian `u32` at position `i`.
pub open spec fn le_u32_at(b: Seq<u8>, i: int) -> int {
    b[i] + 256 * b[i + 1] + 65536 * b[i + 2] + 16777216 * b[i + 3]
}

/// The little-endian `u32` in the first four bytes.
pub open spec fn le_u32(b: Seq<u8>) -> int {
    le_u32_at(b, 0)
}

/// The little-endian `i32` at position `i`.
pub open spec fn le_i32_at(b: Seq<u8>, i: int) -> int {
    let u = le_u32_at(b, i);
    if u < 0x8000_0000 {
        u
    } else {
        u - 0x1_0000_0000
    }
}

/// Where the root table of a size-prefixed buffer starts: the root offset
/// follows the size prefix and counts from its own position.
pub open spec fn root_table_pos(b: Seq<u8>) -> int {
    4 + le_u32_at(b, 4)
}

/// Where the vtable of the table at `t` starts: the table begins with the
/// signed distance back to it.
pub open spec fn vtable_pos(b: Seq<u8>, t: int) -> int {
    t - le_i32_at(b, t)
}

/// Where the field in `slot` of the table at `t` lies, if the table has it:
/// the vtable, after its own length, gives each field's distance from the
/// table start, with 0 (or a slot past the vtable's end) for an absent field.
pub open spec fn field_pos(b: Seq<u8>, t: int, slot: u16) -> Option<int> {
    let v = vtable_pos(b, t);
    if slot + 2 <= le_u16_at(b, v) && le_u16_at(b, v + slot) != 0 {
        Some(t + le_u16_at(b, v + slot))
    } else {
        None
    }
}

/// The `u32` field in `slot` of the table at `t`, or its default if absent.
pub open spec fn read_u32_slot(b: Seq<u8>, t: int, slot: u16, default: u32) -> int {
    match field_pos(b, t, slot) {
        Some(f) => le_u32_at(b, f),
        None => default as int,
    }
}

/// The `u8` field in `slot` of the table at `t`, or its default if absent.
pub open spec fn read_u8_slot(b: Seq<u8>, t: int, slot: u16, default: u8) -> u8 {
    match field_pos(b, t, slot) {
        Some(f) => b[f],
        None => default,
    }
}

/// Where the offset field in `slot` of the table at `t` points: the field
/// holds the distance forward from itself.
pub open spec fn slot_target(b: Seq<u8>, t: int, slot: u16) -> Option<int> {
    match field_pos(b, t, slot) {
        Some(f) => Some(f + le_u32_at(b, f)),
        None => None,
    }
}

/// The string in `slot` of the table at `t`, decoded from UTF-8, if the
/// table has the field.
pub open spec fn read_string_slot(b: Seq<u8>, t: int, slot: u16) -> Option<Seq<char>> {
    match slot_target(b, t, slot) {
        Some(q) => Some(decode_utf8(string_at(b, q))),
        None => None,
    }
}

/// The bytes of the string at `q`: a `u32` length, then that many bytes.
pub open spec fn string_at(b: Seq<u8>, q: int) -> Seq<u8> {
    b.subrange(q + 4, q + 4 + le_u32_at(b, q))
}

/// A push into the root table at `t` of `b` reads back: a scalar gives the
/// pushed value (a value equal to its default is not written, and reads back
/// as the default), an offset points to the position of the pushed offset.
pub open spec fn reads_back(b: Seq<u8>, t: int, step: BuildStep) -> bool {
    match step {
        BuildStep::PushU32Slot { slot, value, default } => read_u32_slot(b, t, slot, default)
            == value,
        BuildStep::PushU8Slot { slot, value, default } => read_u8_slot(b, t, slot, default)
            == value,
        BuildStep::PushOffsetSlot { slot, offset } => slot_target(b, t, slot) == Some(
            b.len() - offset,
        ),
        _ => true,
    }
}

/// The calls end with a table whose slots are all distinct, ended and then
/// finished, with a size prefix, as the root.
pub open spec fn ends_with_root_table(steps: Seq<BuildStep>) -> bool {
    let n = steps.len() as int;
    &&& n >= 2
    &&& steps[n - 2] is EndTable
    &&& steps[n - 1] matches BuildStep::FinishSizePrefixed { root } && root == table_end_offset(
        steps.take(n - 1),
    )
    &&& distinct_slots(open_table_pushes(steps.take(n - 2)))
}

/// Calls `FlatBufferBuilder::finished_data` and copies the slice out. Claims
/// that the bytes are `finished_bytes` of the calls made, and, for a buffer
/// that stayed below 2 GiB, what the bytes hold. The finished data is the
/// used space, and an offset handed out is the used space at that point, so
/// what it names lies at the length minus the offset. There a string is its
/// `u32` byte count and its UTF-8 bytes (`create_byte_string`). With a size
/// prefix, `finish_with_opts` pushes the root offset (forward from itself)
/// and then the used space as the last `u32`, so the prefix counts the bytes
/// after it. `write_vtable` begins the root table with the signed distance
/// back to its vtable, which holds its length and, at each pushed slot, the
/// field's distance from the table start; every other slot reads 0, and
/// `push_slot` writes nothing for a value equal to its default. So, when no
/// slot was pushed twice, each push into the root table reads back.
#[verifier::external_body]
pub(crate) fn builder_finished_data(builder: &FlatBufferBuilder<'static>) -> (bytes: Vec<u8>)
    requires
        finished(builder_steps(*builder)),
    ensures
        bytes@ == finished_bytes(builder_steps(*builder)),
        space_bound(builder_steps(*builder)) <= MAX_BUFFER_SIZE ==> forall|i: int|
            0 <= i < builder_steps(*builder).len() && builder_steps(*builder)[i] is CreateString
                ==> string_at(
                bytes@,
                bytes@.len() - #[trigger] created_string_offset(builder_steps(*builder).take(i + 1)),
            ) == encode_utf8(builder_steps(*builder)[i]->CreateString_0),
        builder_steps(*builder).last() is FinishSizePrefixed && space_bound(builder_steps(*builder))
            <= MAX_BUFFER_SIZE ==> bytes@.len() >= 8 && le_u32(bytes@) + 4 == bytes@.len(),
        ends_with_root_table(builder_steps(*builder)) && space_bound(builder_steps(*builder))
            <= MAX_BUFFER_SIZE ==> forall|j: int|
            0 <= j < open_table_pushes(
                builder_steps(*builder).take(builder_steps(*builder).len() - 2),
            ).len() ==> reads_back(
                bytes@,
                root_table_pos(bytes@),
                #[trigger] open_table_pushes(
                    builder_steps(*builder).take(builder_steps(*builder).len() - 2),
                )[j],
            ),
{
    builder.finished_data().to_vec()
}

} // verus!
