//! The requests collected from one inbound chunk, in arrival order, with
//! contiguous single deletes folded into one batch delete.

use vstd::prelude::*;
use std::collections::VecDeque;
use crate::error::{Error, ErrorView};
use crate::protocol::{Command, CommandView};

verus! {

/// One collected item: a command, or the error that stands in its place.
pub type Request = Result<Command, Error>;

/// The mathematical value of a [`Request`].
pub type RequestView = Result<CommandView, ErrorView>;

/// The value of one request.
pub open spec fn request_view(request: Request) -> RequestView {
    match request {
        Ok(command) => Ok(command@),
        Err(error) => Err(error@),
    }
}

/// Whether the queue ends in a delete that a further single delete joins.
pub open spec fn ends_in_delete(queue: Seq<RequestView>) -> bool {
    queue.len() > 0 && queue.last() is Ok && queue.last()->Ok_0.is_delete()
}

/// The queue after a single delete of `msg` arrived: joined to a delete at
/// the end of the queue, if there is one, and queued by itself otherwise.
pub open spec fn push_delete(queue: Seq<RequestView>, msg: u32) -> Seq<RequestView> {
    if ends_in_delete(queue) {
        queue.drop_last().push(
            Ok(CommandView::DeleMany { msgs: queue.last()->Ok_0.deleted().push(msg) }),
        )
    } else {
        queue.push(Ok(CommandView::Dele { msg }))
    }
}

/// The queue after `command` arrived.
pub open spec fn push_command(queue: Seq<RequestView>, command: CommandView) -> Seq<RequestView> {
    match command {
        CommandView::Dele { msg } => push_delete(queue, msg),
        _ => queue.push(Ok(command)),
    }
}

/// The queue after each of `commands` arrived, in order.
pub open spec fn push_commands(queue: Seq<RequestView>, commands: Seq<CommandView>) -> Seq<
    RequestView,
>
    decreases commands.len(),
{
    if commands.len() == 0 {
        queue
    } else {
        push_command(push_commands(queue, commands.drop_last()), commands.last())
    }
}

/// `msgs` as single deletes, one command for each.
pub open spec fn single_deletes(msgs: Seq<u32>) -> Seq<CommandView> {
    Seq::new(msgs.len(), |i: int| CommandView::Dele { msg: msgs[i] })
}

/// The requests of one chunk.
pub struct Batch {
    requests: VecDeque<Request>,
}

impl View for Batch {
    type V = Seq<RequestView>;

    closed spec fn view(&self) -> Seq<RequestView> {
        Seq::new(self.requests@.len(), |i: int| request_view(self.requests@[i]))
    }
}

impl Batch {
    /// A batch with nothing in it.
    pub fn new() -> (batch: Batch)
        ensures
            batch@ == Seq::<RequestView>::empty(),
    {
        let batch = Batch { requests: VecDeque::new() };
        assert(batch@ =~= Seq::<RequestView>::empty());
        batch
    }

    /// The number of requests that wait.
    pub fn len(&self) -> (n: usize)
        ensures
            n == self@.len(),
    {
        self.requests.len()
    }

    /// Queues `command` behind what is there. A single delete joins a
    /// delete that stands last; nothing else is ever merged or moved.
    pub fn push(&mut self, command: Command)
        ensures
            final(self)@ == push_command(old(self)@, command@),
    {
        let ghost before = self@;
        match command {
            Command::Dele { msg } => {
                match self.requests.pop_back() {
                    Some(Ok(Command::DeleMany { msgs })) => {
                        let mut msgs = msgs;
                        msgs.push(msg);
                        self.requests.push_back(Ok(Command::DeleMany { msgs }));
                    },
                    Some(Ok(Command::Dele { msg: other_msg })) => {
                        let mut msgs: Vec<u32> = Vec::new();
                        msgs.push(other_msg);
                        msgs.push(msg);
                        assert(msgs@ =~= seq![other_msg].push(msg));
                        self.requests.push_back(Ok(Command::DeleMany { msgs }));
                    },
                    Some(previous) => {
                        assert(!ends_in_delete(before));
                        self.requests.push_back(previous);
                        self.requests.push_back(Ok(Command::Dele { msg }));
                    },
                    None => {
                        self.requests.push_back(Ok(Command::Dele { msg }));
                    },
                }
                assert(self@ =~= push_delete(before, msg));
            },
            command => {
                self.requests.push_back(Ok(command));
                assert(self@ =~= before.push(Ok(command@)));
            },
        }
    }

    /// Queues `error` in the place of the malformed unit that it describes.
    pub fn push_error(&mut self, error: Error)
        ensures
            final(self)@ == old(self)@.push(Err(error@)),
    {
        self.requests.push_back(Err(error));
        assert(self@ =~= old(self)@.push(Err(error@)));
    }

    /// Takes the request that arrived first, if any is left.
    pub fn next(&mut self) -> (request: Option<Request>)
        ensures
            match request {
                Some(r) => old(self)@.len() > 0 && request_view(r) == old(self)@[0] && final(self)@
                    == old(self)@.drop_first(),
                None => old(self)@.len() == 0 && final(self)@ == old(self)@,
            },
    {
        let request = self.requests.pop_front();
        assert(self@ =~= if request is Some {
            old(self)@.drop_first()
        } else {
            old(self)@
        });
        request
    }

    /// Drops every request that waits.
    pub fn clear(&mut self)
        ensures
            final(self)@ == Seq::<RequestView>::empty(),
    {
        self.requests.clear();
        assert(self@ =~= Seq::<RequestView>::empty());
    }
}

/// A command that is no single delete is queued as it is, behind
/// everything that came before it.
pub proof fn lemma_other_commands_kept(queue: Seq<RequestView>, command: CommandView)
    requires
        !(command is Dele),
    ensures
        push_command(queue, command) == queue.push(Ok(command)),
{
}

/// A single delete never joins across an error or a command that is no
/// delete: it is queued by itself.
pub proof fn lemma_delete_not_merged_across(queue: Seq<RequestView>, msg: u32)
    requires
        !ends_in_delete(queue),
    ensures
        push_command(queue, CommandView::Dele { msg }) == queue.push(
            Ok(CommandView::Dele { msg }),
        ),
{
}

/// Merging leaves everything but the last request of the queue as it was.
pub proof fn lemma_push_keeps_earlier(queue: Seq<RequestView>, command: CommandView, i: int)
    requires
        0 <= i < queue.len() - 1,
    ensures
        push_command(queue, command).len() >= queue.len(),
        push_command(queue, command)[i] == queue[i],
{
}

/// Two or more single deletes in a row, behind a queue that does not end
/// in a delete, become one batch delete that names every message, in the
/// order of arrival.
pub proof fn lemma_deletes_merge(queue: Seq<RequestView>, msgs: Seq<u32>)
    requires
        !ends_in_delete(queue),
        msgs.len() >= 2,
    ensures
        push_commands(queue, single_deletes(msgs)) == queue.push(
            Ok(CommandView::DeleMany { msgs }),
        ),
    decreases msgs.len(),
{
    let commands = single_deletes(msgs);
    let earlier = msgs.drop_last();
    assert(commands.drop_last() =~= single_deletes(earlier));
    assert(commands.last() == CommandView::Dele { msg: msgs.last() });
    if msgs.len() == 2 {
        let first = single_deletes(earlier);
        assert(first.drop_last() =~= Seq::<CommandView>::empty());
        assert(push_commands(queue, first.drop_last()) == queue);
        assert(first.last() == CommandView::Dele { msg: msgs[0] });
        let one = queue.push(Ok(CommandView::Dele { msg: msgs[0] }));
        assert(push_commands(queue, first) == one);
        assert(ends_in_delete(one));
        assert(one.drop_last() =~= queue);
        assert(seq![msgs[0]].push(msgs[1]) =~= msgs);
    } else {
        lemma_deletes_merge(queue, earlier);
        let merged = queue.push(Ok(CommandView::DeleMany { msgs: earlier }));
        assert(ends_in_delete(merged));
        assert(merged.drop_last() =~= queue);
        assert(earlier.push(msgs.last()) =~= msgs);
    }
}

/// A single delete between two commands that are no deletes stays a single
/// delete, in its place.
pub proof fn lemma_lone_delete_unmerged(
    queue: Seq<RequestView>,
    before: CommandView,
    msg: u32,
    after: CommandView,
)
    requires
        !before.is_delete(),
        !after.is_delete(),
    ensures
        push_commands(queue, seq![before, CommandView::Dele { msg }, after]) == queue.push(
            Ok(before),
        ).push(Ok(CommandView::Dele { msg })).push(Ok(after)),
{
    let three = seq![before, CommandView::Dele { msg }, after];
    let two = seq![before, CommandView::Dele { msg }];
    let one = seq![before];
    assert(three.drop_last() =~= two);
    assert(two.drop_last() =~= one);
    assert(one.drop_last() =~= Seq::<CommandView>::empty());
    assert(push_commands(queue, one.drop_last()) == queue);
    assert(push_commands(queue, one) == queue.push(Ok(before)));
    assert(!ends_in_delete(queue.push(Ok(before))));
    assert(push_commands(queue, two) == queue.push(Ok(before)).push(
        Ok(CommandView::Dele { msg }),
    ));
}

} // verus!
