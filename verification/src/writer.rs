//! Which file-system attribute a recovered time is written to.
//!
//! Every host can set the modification time of a file. Only some can set its
//! creation time. Where that is not possible the recovered creation time is
//! written as the modification time instead, unless the file gave a true
//! modification time of its own.

use crate::media::DateTimes;
use crate::time::Instant;
use vstd::prelude::*;

verus! {

/// A time attribute that the file system keeps for a file.
#[derive(Debug, Clone, Copy, PartialEq, Eq, Structural)]
pub enum Attribute {
    Created,
    Modified,
}

/// One attribute to set, and the instant to set it to.
#[derive(Debug, Clone, Copy, PartialEq, Eq, Structural)]
pub struct Write {
    pub attribute: Attribute,
    pub instant: Instant,
}

/// The instant that goes into the creation attribute, if any: the recovered
/// creation time, on hosts that can set it.
pub open spec fn creation_value(dates: DateTimes, creation_settable: bool) -> Option<Instant> {
    if creation_settable {
        dates.created_date
    } else {
        None
    }
}

/// The instant that goes into the modification attribute, if any: the
/// recovered modification time where there is one; else, on hosts that
/// cannot set a creation time, the recovered creation time in its place.
pub open spec fn modification_value(dates: DateTimes, creation_settable: bool) -> Option<
    Instant,
> {
    if dates.modified_date is Some || creation_settable {
        dates.modified_date
    } else {
        dates.created_date
    }
}

/// The write of `value` to `attribute`, or nothing where there is no value.
pub open spec fn write_of(attribute: Attribute, value: Option<Instant>) -> Seq<Write> {
    match value {
        Some(instant) => seq![Write { attribute, instant }],
        None => seq![],
    }
}

/// The writes for one file, in the order in which they are made: the
/// creation attribute first, then the modification attribute.
pub open spec fn planned(dates: DateTimes, creation_settable: bool) -> Seq<Write> {
    write_of(Attribute::Created, creation_value(dates, creation_settable)) + write_of(
        Attribute::Modified,
        modification_value(dates, creation_settable),
    )
}

/// Decides which attributes of a file are set, and to what.
///
/// `creation_settable` says whether the host can set a creation time
/// independently of the modification time. The writes are to be made in
/// order, and the first one that fails ends the attempt.
pub fn plan_writes(dates: &DateTimes, creation_settable: bool) -> (writes: Vec<Write>)
    ensures
        writes@ == planned(*dates, creation_settable),
        !creation_settable && dates.modified_date is None ==> writes@ == write_of(
            Attribute::Modified,
            dates.created_date,
        ),
        !creation_settable && dates.modified_date is Some ==> writes@ == write_of(
            Attribute::Modified,
            dates.modified_date,
        ),
{
    let mut writes: Vec<Write> = Vec::new();
    if creation_settable {
        if let Some(instant) = dates.created_date {
            writes.push(Write { attribute: Attribute::Created, instant });
        }
    }
    let modification = if dates.modified_date.is_some() || creation_settable {
        dates.modified_date
    } else {
        dates.created_date
    };
    if let Some(instant) = modification {
        writes.push(Write { attribute: Attribute::Modified, instant });
    }
    writes
}

/// The write to make next, after `made` of the planned writes: the one that
/// follows them, as long as the last one went well and any is left. The
/// first write that fails ends the attempt.
pub open spec fn following(writes: Seq<Write>, made: usize, last_ok: bool) -> Option<Write> {
    if last_ok && made < writes.len() {
        Some(writes[made as int])
    } else {
        None
    }
}

/// Says which write to make next, or that the attempt is over.
///
/// `made` counts the writes made so far and `last_ok` says whether the last
/// of them went well; before the first write it is `true`.
pub fn next_write(writes: &Vec<Write>, made: usize, last_ok: bool) -> (next: Option<Write>)
    ensures
        next == following(writes@, made, last_ok),
{
    if last_ok && made < writes.len() {
        Some(writes[made])
    } else {
        None
    }
}

/// The two time attributes of a file, as far as they are known.
pub struct FileTimes {
    pub created: Option<Instant>,
    pub modified: Option<Instant>,
}

impl FileTimes {
    /// The attributes after one write.
    pub open spec fn set(self, write: Write) -> FileTimes {
        match write.attribute {
            Attribute::Created => FileTimes { created: Some(write.instant), ..self },
            Attribute::Modified => FileTimes { modified: Some(write.instant), ..self },
        }
    }

    /// The attributes after a sequence of writes, made in order.
    pub open spec fn written(self, writes: Seq<Write>) -> FileTimes
        decreases writes.len(),
    {
        if writes.len() == 0 {
            self
        } else {
            self.written(writes.drop_last()).set(writes.last())
        }
    }
}

/// What the planned writes leave in a file's two attributes: each attribute
/// holds the value chosen for it, or is left as it was.
pub proof fn lemma_planned_writes(before: FileTimes, dates: DateTimes, creation_settable: bool)
    ensures
        before.written(planned(dates, creation_settable)).created == match creation_value(
            dates,
            creation_settable,
        ) {
            Some(instant) => Some(instant),
            None => before.created,
        },
        before.written(planned(dates, creation_settable)).modified == match modification_value(
            dates,
            creation_settable,
        ) {
            Some(instant) => Some(instant),
            None => before.modified,
        },
{
    let writes = planned(dates, creation_settable);
    reveal_with_fuel(FileTimes::written, 3);
    if writes.len() == 2 {
        assert(writes.drop_last() =~= seq![writes[0]]);
        assert(writes.drop_last().drop_last() =~= Seq::<Write>::empty());
    } else if writes.len() == 1 {
        assert(writes.drop_last() =~= Seq::<Write>::empty());
    }
}

/// Writing the times recovered from a file a second time changes nothing:
/// the attributes after two rounds of the planned writes are those after one.
pub proof fn lemma_rewriting_changes_nothing(
    before: FileTimes,
    dates: DateTimes,
    creation_settable: bool,
)
    ensures
        before.written(planned(dates, creation_settable)).written(
            planned(dates, creation_settable),
        ) == before.written(planned(dates, creation_settable)),
{
    let once = before.written(planned(dates, creation_settable));
    lemma_planned_writes(before, dates, creation_settable);
    lemma_planned_writes(once, dates, creation_settable);
}

} // verus!
