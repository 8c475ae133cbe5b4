use vstd::prelude::*;

verus! {

/// A command crossing the boundary inward. `Exit` asks the event loop to
/// terminate; the other variants are the placeholder work commands.
#[derive(Clone, Copy, Debug, PartialEq, Eq, Structural)]
pub enum Command {
    Exit,
    ComA,
    ComB,
}

/// A response crossing the boundary outward, produced one-for-one for
/// `ComA`/`ComB`; `Exit` produces none.
#[derive(Clone, Copy, Debug, PartialEq, Eq, Structural)]
pub enum Response {
    ResA,
    ResB,
}

/// The command/response protocol: what the event loop answers to one
/// dequeued command. `None` means the loop stops instead of answering.
pub open spec fn response_for(c: Command) -> Option<Response> {
    match c {
        Command::Exit => None,
        Command::ComA => Some(Response::ResA),
        Command::ComB => Some(Response::ResB),
    }
}

/// The event loop's decision for one dequeued command.
pub fn response_to(c: &Command) -> (r: Option<Response>)
    ensures
        r == response_for(*c),
{
    match c {
        Command::Exit => None,
        Command::ComA => Some(Response::ResA),
        Command::ComB => Some(Response::ResB),
    }
}

/// The responses the event loop emits for an inbound command sequence,
/// in emission order: one per command up to (and excluding) the first
/// `Exit`, nothing from there on.
pub open spec fn responses_of(cmds: Seq<Command>) -> Seq<Response>
    decreases cmds.len(),
{
    if cmds.len() == 0 {
        Seq::empty()
    } else {
        match response_for(cmds[0]) {
            None => Seq::empty(),
            Some(r) => seq![r] + responses_of(cmds.drop_first()),
        }
    }
}

/// Runs the event-loop protocol over a whole command script at once:
/// answers each command in order and stops at the first `Exit`.
pub fn process_commands(cmds: &Vec<Command>) -> (rs: Vec<Response>)
    ensures
        rs@ == responses_of(cmds@),
{
    let mut rs: Vec<Response> = Vec::new();
    let mut i: usize = 0;
    proof {
        assert(cmds@.skip(0) =~= cmds@);
        assert(Seq::<Response>::empty() + responses_of(cmds@) =~= responses_of(cmds@));
    }
    while i < cmds.len()
        invariant
            i <= cmds.len(),
            rs@ + responses_of(cmds@.skip(i as int)) == responses_of(cmds@),
        decreases cmds.len() - i,
    {
        let c = cmds[i];
        proof {
            assert(cmds@.skip(i as int)[0] == cmds@[i as int]);
        }
        match response_to(&c) {
            None => {
                proof {
                    assert(responses_of(cmds@.skip(i as int)) =~= Seq::<Response>::empty());
                    assert(rs@ + Seq::<Response>::empty() =~= rs@);
                }
                return rs;
            }
            Some(resp) => {
                proof {
                    assert(cmds@.skip(i as int).drop_first() =~= cmds@.skip(i as int + 1));
                    assert(responses_of(cmds@.skip(i as int)) == seq![resp]
                        + responses_of(cmds@.skip(i as int + 1)));
                    assert(rs@.push(resp) + responses_of(cmds@.skip(i as int + 1)) =~= rs@
                        + responses_of(cmds@.skip(i as int)));
                }
                rs.push(resp);
                i = i + 1;
            }
        }
    }
    proof {
        assert(cmds@.skip(cmds@.len() as int) =~= Seq::<Command>::empty());
        assert(rs@ + Seq::<Response>::empty() =~= rs@);
    }
    rs
}

/// Law: a script without `Exit` yields exactly one response per command,
/// in submission order, with `ComA` answered by `ResA` and `ComB` by
/// `ResB`.
pub proof fn lemma_no_exit_one_for_one(cmds: Seq<Command>)
    requires
        forall|i: int| 0 <= i < cmds.len() ==> !((#[trigger] cmds[i]) is Exit),
    ensures
        responses_of(cmds).len() == cmds.len(),
        forall|i: int| 0 <= i < cmds.len()
            ==> response_for(#[trigger] cmds[i]) == Some(responses_of(cmds)[i]),
    decreases cmds.len(),
{
    if cmds.len() > 0 {
        let rest = cmds.drop_first();
        assert(forall|i: int| 0 <= i < rest.len() ==> #[trigger] rest[i] == cmds[i + 1]);
        lemma_no_exit_one_for_one(rest);
        assert forall|i: int| 0 <= i < cmds.len()
            implies response_for(#[trigger] cmds[i]) == Some(responses_of(cmds)[i]) by {
            if i > 0 {
                assert(cmds[i] == rest[i - 1]);
                assert(responses_of(cmds)[i] == responses_of(rest)[i - 1]);
            }
        }
    }
}

/// Law: the first `Exit` cuts the script short. The responses for the whole
/// script are exactly the responses for the prefix before that `Exit`;
/// nothing after it, the `Exit` included, produces any.
pub proof fn lemma_exit_truncates(cmds: Seq<Command>, k: int)
    requires
        0 <= k < cmds.len(),
        cmds[k] is Exit,
        forall|i: int| 0 <= i < k ==> !((#[trigger] cmds[i]) is Exit),
    ensures
        responses_of(cmds) == responses_of(cmds.take(k)),
    decreases k,
{
    if k == 0 {
        assert(cmds.take(0) =~= Seq::<Command>::empty());
    } else {
        let rest = cmds.drop_first();
        assert(forall|i: int| 0 <= i < rest.len() ==> #[trigger] rest[i] == cmds[i + 1]);
        lemma_exit_truncates(rest, k - 1);
        assert(cmds.take(k).drop_first() =~= rest.take(k - 1));
        assert(cmds.take(k)[0] == cmds[0]);
    }
}

/// Law: every command submitted strictly before the first `Exit` is
/// answered, in order and by the protocol; the `Exit` itself and anything
/// after it is not.
pub proof fn lemma_responses_before_exit(cmds: Seq<Command>, k: int)
    requires
        0 <= k < cmds.len(),
        cmds[k] is Exit,
        forall|i: int| 0 <= i < k ==> !((#[trigger] cmds[i]) is Exit),
    ensures
        responses_of(cmds).len() == k,
        forall|i: int| 0 <= i < k
            ==> response_for(#[trigger] cmds[i]) == Some(responses_of(cmds)[i]),
{
    lemma_exit_truncates(cmds, k);
    let prefix = cmds.take(k);
    assert(forall|i: int| 0 <= i < k ==> #[trigger] prefix[i] == cmds[i]);
    lemma_no_exit_one_for_one(prefix);
    assert forall|i: int| 0 <= i < k
        implies response_for(#[trigger] cmds[i]) == Some(responses_of(cmds)[i]) by {
        assert(response_for(prefix[i]) == Some(responses_of(prefix)[i]));
    }
}

} // verus!
