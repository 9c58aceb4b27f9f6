//! The mixer task's state machine.
//!
//! One dedicated task owns a [`MixerState`] and is the only writer of it;
//! every other component reconfigures the mixer exclusively by sending
//! [`MixerMessage`] values down a FIFO command channel. This module gives
//! that state a mathematical model ([`MixerModel`]), defines what each
//! command does to the model ([`step_model`]), and proves the ordering,
//! generation and teardown disciplines of the protocol over whole runs.

use vstd::prelude::*;
use crate::config::{Bitrate, Config};
use crate::message::{Interconnect, MixerConnection, MixerMessage, WsMessage};
use crate::tracks::Track;

verus! {

broadcast use vstd::seq_lib::group_seq_lib_default;

/// Mathematical model of the mixer state: what each command observably
/// changes, with a live connection reduced to its generation id.
pub ghost struct MixerModel {
    /// Generation of the installed connection, or `None` when idle.
    pub conn_gen: Option<u32>,
    /// Whether audio transmission is suppressed.
    pub muted: bool,
    /// Whether the mixer is paused; configuration is retained meanwhile.
    pub disabled: bool,
    /// Whether the terminal command has been observed.
    pub poisoned: bool,
    /// Bitrate the encoder is asked for.
    pub bitrate: Bitrate,
    /// Retained driver configuration.
    pub config: Config,
    /// Handles of the queued tracks, in order.
    pub tracks: Seq<u64>,
    /// Whether a control-channel sink is attached.
    pub ws_attached: bool,
    /// Whether a cross-task event bundle is attached.
    pub has_interconnect: bool,
    /// Whether the encoder must be rebuilt before the next frame.
    pub encoder_stale: bool,
}

/// A mixer command with its payload reduced to what the model tracks.
#[allow(inconsistent_fields)]
pub ghost enum MixerCommand {
    /// Queue another track.
    AddTrack { id: u64 },
    /// Replace the track set with one track, or clear it.
    SetTrack { id: Option<u64> },
    /// Reconfigure the encoder's bitrate.
    SetBitrate { bitrate: Bitrate },
    /// Replace the retained configuration.
    SetConfig { config: Config },
    /// Suppress or restore audio.
    SetMute { mute: bool },
    /// Pause or resume the mixer.
    SetDisabled { disabled: bool },
    /// Install a connection under this generation id.
    SetConn { generation: u32 },
    /// Attach or detach the control-channel sink.
    Ws { attached: bool },
    /// Tear down the current connection and go idle.
    DropConn,
    /// Swap the cross-task event bundle.
    ReplaceInterconnect,
    /// Force the encoder to be rebuilt.
    RebuildEncoder,
    /// Terminal marker.
    Poison,
}

impl View for MixerMessage {
    type V = MixerCommand;

    open spec fn view(&self) -> MixerCommand {
        match self {
            MixerMessage::AddTrack(track) => MixerCommand::AddTrack { id: track.handle.id },
            MixerMessage::SetTrack(track) => MixerCommand::SetTrack {
                id: match track {
                    Some(t) => Some(t.handle.id),
                    None => None,
                },
            },
            MixerMessage::SetBitrate(bitrate) => MixerCommand::SetBitrate { bitrate: *bitrate },
            MixerMessage::SetConfig(config) => MixerCommand::SetConfig { config: *config },
            MixerMessage::SetMute(mute) => MixerCommand::SetMute { mute: *mute },
            MixerMessage::SetDisabled(disabled) => MixerCommand::SetDisabled {
                disabled: *disabled,
            },
            MixerMessage::SetConn(_, generation) => MixerCommand::SetConn {
                generation: *generation,
            },
            MixerMessage::Ws(sender) => MixerCommand::Ws { attached: sender is Some },
            MixerMessage::DropConn => MixerCommand::DropConn,
            MixerMessage::ReplaceInterconnect(_) => MixerCommand::ReplaceInterconnect,
            MixerMessage::RebuildEncoder => MixerCommand::RebuildEncoder,
            MixerMessage::Poison => MixerCommand::Poison,
        }
    }
}

/// The commands a queue of messages stands for, in queue order.
pub open spec fn msg_views(msgs: Seq<MixerMessage>) -> Seq<MixerCommand> {
    msgs.map_values(|msg: MixerMessage| msg@)
}

/// The singleton or empty sequence a torn-down generation contributes.
pub open spec fn opt_gens(o: Option<u32>) -> Seq<u32> {
    match o {
        Some(g) => seq![g],
        None => Seq::empty(),
    }
}

/// What one command does to the model, and which connection generation it
/// tears down, if any.
///
/// A poisoned mixer processes nothing further: its state is frozen. The one
/// residual duty is resource disposal — a connection arriving in a queued
/// `SetConn` after poisoning is torn down unused, so an undrained queue
/// never leaks the connections it still carries.
pub open spec fn step_model(m: MixerModel, cmd: MixerCommand) -> (MixerModel, Option<u32>) {
    if m.poisoned {
        match cmd {
            MixerCommand::SetConn { generation } => (m, Some(generation)),
            _ => (m, None),
        }
    } else {
        match cmd {
            MixerCommand::AddTrack { id } => (
                MixerModel { tracks: m.tracks.push(id), ..m },
                None,
            ),
            MixerCommand::SetTrack { id } => (
                MixerModel {
                    tracks: match id {
                        Some(i) => seq![i],
                        None => Seq::empty(),
                    },
                    ..m
                },
                None,
            ),
            MixerCommand::SetBitrate { bitrate } => (MixerModel { bitrate, ..m }, None),
            MixerCommand::SetConfig { config } => (MixerModel { config, ..m }, None),
            MixerCommand::SetMute { mute } => (MixerModel { muted: mute, ..m }, None),
            MixerCommand::SetDisabled { disabled } => (MixerModel { disabled, ..m }, None),
            MixerCommand::SetConn { generation } => (
                MixerModel { conn_gen: Some(generation), ..m },
                m.conn_gen,
            ),
            MixerCommand::Ws { attached } => (MixerModel { ws_attached: attached, ..m }, None),
            MixerCommand::DropConn => (MixerModel { conn_gen: None, ..m }, m.conn_gen),
            MixerCommand::ReplaceInterconnect => (
                MixerModel { has_interconnect: true, ..m },
                None,
            ),
            MixerCommand::RebuildEncoder => (MixerModel { encoder_stale: true, ..m }, None),
            MixerCommand::Poison => (
                MixerModel { conn_gen: None, poisoned: true, ..m },
                m.conn_gen,
            ),
        }
    }
}

/// The model after a whole run of commands, processed strictly in order.
pub open spec fn run_model(m: MixerModel, cmds: Seq<MixerCommand>) -> MixerModel
    decreases cmds.len(),
{
    if cmds.len() == 0 {
        m
    } else {
        run_model(step_model(m, cmds[0]).0, cmds.skip(1))
    }
}

/// The generations torn down over a run, in teardown order.
pub open spec fn run_torn(m: MixerModel, cmds: Seq<MixerCommand>) -> Seq<u32>
    decreases cmds.len(),
{
    if cmds.len() == 0 {
        Seq::empty()
    } else {
        opt_gens(step_model(m, cmds[0]).1) + run_torn(step_model(m, cmds[0]).0, cmds.skip(1))
    }
}

/// The model a fresh mixer starts in: idle, live, unmuted, nothing queued.
pub open spec fn init_model(config: Config) -> MixerModel {
    MixerModel {
        conn_gen: None,
        muted: false,
        disabled: false,
        poisoned: false,
        bitrate: Bitrate::Auto,
        config,
        tracks: Seq::empty(),
        ws_attached: false,
        has_interconnect: false,
        encoder_stale: false,
    }
}

/// A model the state machine can actually be in: once poisoned, the
/// connection has already been torn down.
pub open spec fn model_inv(m: MixerModel) -> bool {
    m.poisoned ==> m.conn_gen is None
}

/// The state the mixer task owns. All mutation funnels through
/// [`MixerState::process`]; other tasks only ever send commands.
pub struct MixerState {
    conn: Option<(MixerConnection, u32)>,
    muted: bool,
    disabled: bool,
    poisoned: bool,
    bitrate: Bitrate,
    config: Config,
    tracks: Vec<Track>,
    ws: Option<flume::Sender<WsMessage>>,
    interconnect: Option<Interconnect>,
    encoder_stale: bool,
}

impl View for MixerState {
    type V = MixerModel;

    closed spec fn view(&self) -> MixerModel {
        MixerModel {
            conn_gen: match self.conn {
                Some((_, g)) => Some(g),
                None => None,
            },
            muted: self.muted,
            disabled: self.disabled,
            poisoned: self.poisoned,
            bitrate: self.bitrate,
            config: self.config,
            tracks: self.tracks@.map_values(|t: Track| t.handle.id),
            ws_attached: self.ws is Some,
            has_interconnect: self.interconnect is Some,
            encoder_stale: self.encoder_stale,
        }
    }
}

impl MixerState {
    /// A fresh mixer: idle, live, with the given configuration retained.
    pub fn new(config: Config) -> (s: MixerState)
        ensures
            s@ == init_model(config),
            model_inv(s@),
    {
        let s = MixerState {
            conn: None,
            muted: false,
            disabled: false,
            poisoned: false,
            bitrate: Bitrate::Auto,
            config,
            tracks: Vec::new(),
            ws: None,
            interconnect: None,
            encoder_stale: false,
        };
        proof {
            assert(s@.tracks =~= init_model(config).tracks);
        }
        s
    }

    /// Generation of the installed connection, or `None` when idle.
    pub fn current_generation(&self) -> (g: Option<u32>)
        ensures
            g == self@.conn_gen,
    {
        match &self.conn {
            Some((_, g)) => Some(*g),
            None => None,
        }
    }

    /// Whether the terminal command has been observed.
    pub fn is_poisoned(&self) -> (b: bool)
        ensures
            b == self@.poisoned,
    {
        self.poisoned
    }

    /// Whether audio transmission is suppressed.
    pub fn is_muted(&self) -> (b: bool)
        ensures
            b == self@.muted,
    {
        self.muted
    }

    /// Whether the mixer is paused.
    pub fn is_disabled(&self) -> (b: bool)
        ensures
            b == self@.disabled,
    {
        self.disabled
    }

    /// How many tracks are queued.
    pub fn track_count(&self) -> (n: usize)
        ensures
            n == self@.tracks.len(),
    {
        self.tracks.len()
    }

    /// Bitrate the encoder is asked for.
    pub fn bitrate(&self) -> (b: Bitrate)
        ensures
            b == self@.bitrate,
    {
        self.bitrate
    }

    /// The retained driver configuration.
    pub fn config(&self) -> (c: Config)
        ensures
            c == self@.config,
    {
        self.config
    }

    /// Whether a control-channel sink is attached.
    pub fn has_ws_sink(&self) -> (b: bool)
        ensures
            b == self@.ws_attached,
    {
        self.ws.is_some()
    }

    /// Whether a cross-task event bundle is attached.
    pub fn has_interconnect(&self) -> (b: bool)
        ensures
            b == self@.has_interconnect,
    {
        self.interconnect.is_some()
    }

    /// Whether the encoder must be rebuilt before the next frame.
    pub fn needs_encoder_rebuild(&self) -> (b: bool)
        ensures
            b == self@.encoder_stale,
    {
        self.encoder_stale
    }

    /// Applies one command, exactly as [`step_model`] says, tearing down
    /// whichever connection the command supersedes or discards and
    /// returning that connection's generation.
    pub fn process(&mut self, msg: MixerMessage) -> (torn: Option<u32>)
        ensures
            final(self)@ == step_model(old(self)@, msg@).0,
            torn == step_model(old(self)@, msg@).1,
            model_inv(old(self)@) ==> model_inv(final(self)@),
    {
        if self.poisoned {
            match msg {
                MixerMessage::SetConn(conn, generation) => {
                    conn.teardown();
                    Some(generation)
                },
                _ => None,
            }
        } else {
            match msg {
                MixerMessage::AddTrack(track) => {
                    let ghost prev = self.tracks@;
                    let ghost id = track.handle.id;
                    self.tracks.push(track);
                    proof {
                        assert(self.tracks@.map_values(|t: Track| t.handle.id) =~= prev
                            .map_values(|t: Track| t.handle.id).push(id));
                    }
                    None
                },
                MixerMessage::SetTrack(track) => {
                    let mut replacement: Vec<Track> = Vec::new();
                    match track {
                        Some(t) => {
                            let ghost id = t.handle.id;
                            replacement.push(t);
                            proof {
                                assert(replacement@.map_values(|t: Track| t.handle.id)
                                    =~= seq![id]);
                            }
                        },
                        None => {
                            proof {
                                assert(replacement@.map_values(|t: Track| t.handle.id)
                                    =~= Seq::<u64>::empty());
                            }
                        },
                    }
                    self.tracks = replacement;
                    None
                },
                MixerMessage::SetBitrate(bitrate) => {
                    self.bitrate = bitrate;
                    None
                },
                MixerMessage::SetConfig(config) => {
                    self.config = config;
                    None
                },
                MixerMessage::SetMute(mute) => {
                    self.muted = mute;
                    None
                },
                MixerMessage::SetDisabled(disabled) => {
                    self.disabled = disabled;
                    None
                },
                MixerMessage::SetConn(conn, generation) => {
                    let prev = self.conn.take();
                    self.conn = Some((conn, generation));
                    match prev {
                        Some((old_conn, old_gen)) => {
                            old_conn.teardown();
                            Some(old_gen)
                        },
                        None => None,
                    }
                },
                MixerMessage::Ws(sender) => {
                    self.ws = sender;
                    None
                },
                MixerMessage::DropConn => {
                    match self.conn.take() {
                        Some((old_conn, old_gen)) => {
                            old_conn.teardown();
                            Some(old_gen)
                        },
                        None => None,
                    }
                },
                MixerMessage::ReplaceInterconnect(bundle) => {
                    self.interconnect = Some(bundle);
                    None
                },
                MixerMessage::RebuildEncoder => {
                    self.encoder_stale = true;
                    None
                },
                MixerMessage::Poison => {
                    self.poisoned = true;
                    match self.conn.take() {
                        Some((old_conn, old_gen)) => {
                            old_conn.teardown();
                            Some(old_gen)
                        },
                        None => None,
                    }
                },
            }
        }
    }

    /// Drains a queue of commands, applying each strictly in arrival
    /// order, and returns the generations of every connection torn down,
    /// in teardown order. Once a Poison is processed the state is frozen
    /// and no later command takes effect; a connection carried by a
    /// later queued `SetConn` is still torn down rather than leaked.
    pub fn run_batch(&mut self, msgs: Vec<MixerMessage>) -> (torn: Vec<u32>)
        ensures
            final(self)@ == run_model(old(self)@, msg_views(msgs@)),
            torn@ == run_torn(old(self)@, msg_views(msgs@)),
    {
        let ghost cmds = msg_views(msgs@);
        let mut queue = msgs;
        let mut torn: Vec<u32> = Vec::new();
        let ghost mut done: int = 0;
        proof {
            assert(cmds.take(0) =~= Seq::<MixerCommand>::empty());
            assert(msg_views(queue@) =~= cmds.skip(0));
        }
        while queue.len() > 0
            invariant
                0 <= done <= cmds.len(),
                msg_views(queue@) == cmds.skip(done),
                self@ == run_model(old(self)@, cmds.take(done)),
                torn@ == run_torn(old(self)@, cmds.take(done)),
            decreases queue.len(),
        {
            let ghost queue_before = queue@;
            let msg = queue.remove(0);
            proof {
                assert(queue_before.len() > 0);
                assert(msg_views(queue_before).len() == queue_before.len());
                assert(cmds.skip(done).len() == cmds.len() - done);
                assert(done < cmds.len());
                assert(msg_views(queue_before)[0] == msg@);
                vstd::seq_lib::lemma_seq_skip_index::<MixerCommand>(cmds, done, 0);
                assert(cmds.skip(done)[0] == cmds[done]);
                assert(msg@ == cmds[done]);
                assert(queue@ =~= queue_before.skip(1));
                assert forall|k: int| 0 <= k < queue@.len() implies msg_views(queue@)[k]
                    == cmds.skip(done + 1)[k] by {
                    assert(msg_views(queue@)[k] == queue@[k]@);
                    assert(queue@[k] == queue_before[k + 1]);
                    assert(msg_views(queue_before)[k + 1] == queue_before[k + 1]@);
                    vstd::seq_lib::lemma_seq_skip_index::<MixerCommand>(cmds, done, k + 1);
                    assert(cmds.skip(done)[k + 1] == cmds[done + 1 + k]);
                    vstd::seq_lib::lemma_seq_skip_index::<MixerCommand>(cmds, done + 1, k);
                    assert(cmds.skip(done + 1)[k] == cmds[done + 1 + k]);
                }
                assert(msg_views(queue@) =~= cmds.skip(done + 1));
                lemma_run_snoc(old(self)@, cmds.take(done), cmds[done]);
                assert(cmds.take(done).push(cmds[done]) =~= cmds.take(done + 1));
            }
            let stepped = self.process(msg);
            match stepped {
                Some(generation) => torn.push(generation),
                None => {},
            }
            proof {
                done = done + 1;
            }
        }
        proof {
            assert(cmds.skip(done).len() == 0);
            assert(cmds.take(done) =~= cmds);
        }
        torn
    }
}

/// The stale-data rule applied by the consuming network task: inbound data
/// tagged with a generation below the currently installed one belongs to a
/// superseded connection and is discarded, never delivered to the active
/// mixing path.
pub fn is_stale(current: u32, tagged: u32) -> (r: bool)
    ensures
        r == (tagged < current),
{
    tagged < current
}

/// Law (command atomicity): one step preserves the reachable-state
/// invariant.
pub proof fn lemma_step_preserves_inv(m: MixerModel, cmd: MixerCommand)
    requires
        model_inv(m),
    ensures
        model_inv(step_model(m, cmd).0),
{
}

/// Law: whole runs preserve the reachable-state invariant.
pub proof fn lemma_run_preserves_inv(m: MixerModel, cmds: Seq<MixerCommand>)
    requires
        model_inv(m),
    ensures
        model_inv(run_model(m, cmds)),
    decreases cmds.len(),
{
    if cmds.len() > 0 {
        lemma_step_preserves_inv(m, cmds[0]);
        lemma_run_preserves_inv(step_model(m, cmds[0]).0, cmds.skip(1));
    }
}

/// Processing one more command at the end of a run is one more step from
/// the state the run reached.
proof fn lemma_run_snoc(m: MixerModel, cmds: Seq<MixerCommand>, cmd: MixerCommand)
    ensures
        run_model(m, cmds.push(cmd)) == step_model(run_model(m, cmds), cmd).0,
        run_torn(m, cmds.push(cmd)) == run_torn(m, cmds) + opt_gens(
            step_model(run_model(m, cmds), cmd).1,
        ),
    decreases cmds.len(),
{
    let s = cmds.push(cmd);
    if cmds.len() == 0 {
        assert(s.len() == 1);
        assert(s[0] == cmd);
        assert(s.skip(1) =~= Seq::<MixerCommand>::empty());
        assert(run_model(m, s) == run_model(step_model(m, cmd).0, s.skip(1)));
        assert(run_model(step_model(m, cmd).0, s.skip(1)) == step_model(m, cmd).0);
        assert(run_model(m, cmds) == m);
        assert(run_torn(m, s) == opt_gens(step_model(m, cmd).1) + run_torn(
            step_model(m, cmd).0,
            s.skip(1),
        ));
        assert(run_torn(step_model(m, cmd).0, s.skip(1)) =~= Seq::<u32>::empty());
        assert(run_torn(m, cmds) =~= Seq::<u32>::empty());
        assert(run_torn(m, s) =~= run_torn(m, cmds) + opt_gens(step_model(m, cmd).1));
    } else {
        let m2 = step_model(m, cmds[0]).0;
        let t0 = opt_gens(step_model(m, cmds[0]).1);
        lemma_run_snoc(m2, cmds.skip(1), cmd);
        assert(s[0] == cmds[0]);
        assert(s.len() == cmds.len() + 1);
        assert(s.skip(1) =~= cmds.skip(1).push(cmd));
        assert(run_model(m, s) == run_model(m2, s.skip(1)));
        assert(run_model(m, cmds) == run_model(m2, cmds.skip(1)));
        assert(run_model(m, s) == step_model(run_model(m, cmds), cmd).0);
        assert(run_torn(m, s) == t0 + run_torn(m2, s.skip(1)));
        assert(run_torn(m2, s.skip(1)) == run_torn(m2, cmds.skip(1)) + opt_gens(
            step_model(run_model(m, cmds), cmd).1,
        ));
        assert(run_torn(m, cmds) == t0 + run_torn(m2, cmds.skip(1)));
        assert(t0 + (run_torn(m2, cmds.skip(1)) + opt_gens(
            step_model(run_model(m, cmds), cmd).1,
        )) =~= (t0 + run_torn(m2, cmds.skip(1))) + opt_gens(
            step_model(run_model(m, cmds), cmd).1,
        ));
    }
}

/// Law (FIFO per producer): a run over `c1 + c2` is the run over `c1`
/// followed by the run over `c2` from the state `c1` left behind — every
/// command's effects are fully applied before the next command begins,
/// and the teardowns happen in the same order.
pub proof fn lemma_fifo_composition(m: MixerModel, c1: Seq<MixerCommand>, c2: Seq<MixerCommand>)
    ensures
        run_model(m, c1 + c2) == run_model(run_model(m, c1), c2),
        run_torn(m, c1 + c2) == run_torn(m, c1) + run_torn(run_model(m, c1), c2),
    decreases c1.len(),
{
    if c1.len() == 0 {
        assert(c1 + c2 =~= c2);
        assert(run_torn(m, c1) + run_torn(m, c2) =~= run_torn(m, c2));
    } else {
        let m2 = step_model(m, c1[0]).0;
        lemma_fifo_composition(m2, c1.skip(1), c2);
        assert((c1 + c2)[0] == c1[0]);
        assert((c1 + c2).skip(1) =~= c1.skip(1) + c2);
        assert(run_torn(m, c1 + c2) =~= run_torn(m, c1) + run_torn(run_model(m, c1), c2));
    }
}

/// Law (poison terminality, frozen state): a poisoned model never changes
/// again, whatever is still queued.
pub proof fn lemma_poison_freezes(m: MixerModel, cmds: Seq<MixerCommand>)
    requires
        m.poisoned,
    ensures
        run_model(m, cmds) == m,
    decreases cmds.len(),
{
    if cmds.len() > 0 {
        assert(step_model(m, cmds[0]).0 == m);
        lemma_poison_freezes(m, cmds.skip(1));
    }
}

/// Law (poison terminality): with a Poison at position `i`, the run ends
/// in the state reached right after it — poisoned, the pending connection
/// torn down, and no later command processed.
pub proof fn lemma_poison_terminal(m: MixerModel, cmds: Seq<MixerCommand>, i: int)
    requires
        model_inv(m),
        0 <= i < cmds.len(),
        cmds[i] is Poison,
    ensures
        run_model(m, cmds) == run_model(m, cmds.take(i + 1)),
        run_model(m, cmds).poisoned,
        run_model(m, cmds).conn_gen is None,
{
    assert(cmds =~= cmds.take(i + 1) + cmds.skip(i + 1));
    lemma_fifo_composition(m, cmds.take(i + 1), cmds.skip(i + 1));
    assert(cmds.take(i + 1) =~= cmds.take(i).push(cmds[i]));
    lemma_run_snoc(m, cmds.take(i), cmds[i]);
    lemma_run_preserves_inv(m, cmds.take(i));
    let mid = run_model(m, cmds.take(i));
    let stopped = step_model(mid, cmds[i]).0;
    assert(stopped.poisoned && stopped.conn_gen is None);
    lemma_poison_freezes(stopped, cmds.skip(i + 1));
}

/// The generation ids the commands of a run hand over, in order.
pub open spec fn setconn_gens(cmds: Seq<MixerCommand>) -> Seq<u32>
    decreases cmds.len(),
{
    if cmds.len() == 0 {
        Seq::empty()
    } else {
        (match cmds[0] {
            MixerCommand::SetConn { generation } => seq![generation],
            _ => Seq::empty(),
        }) + setconn_gens(cmds.skip(1))
    }
}

/// Every generation a run can ever hold: the one already installed,
/// followed by the handed-over ones in arrival order. Each entry stands
/// for one constructed connection.
pub open spec fn gen_chain(m: MixerModel, cmds: Seq<MixerCommand>) -> Seq<u32> {
    opt_gens(m.conn_gen) + setconn_gens(cmds)
}

/// Whether a sequence of generation ids never decreases.
pub open spec fn non_decreasing(q: Seq<u32>) -> bool {
    forall|i: int, j: int| 0 <= i <= j < q.len() ==> q[i] <= q[j]
}

/// The generations downstream consumers observe over a run: after each
/// command, the generation then installed, where one is.
pub open spec fn gen_trace(m: MixerModel, cmds: Seq<MixerCommand>) -> Seq<u32>
    decreases cmds.len(),
{
    if cmds.len() == 0 {
        Seq::empty()
    } else {
        let m2 = step_model(m, cmds[0]).0;
        opt_gens(m2.conn_gen) + gen_trace(m2, cmds.skip(1))
    }
}

/// One step consumes a prefix of the generation chain: exactly the torn
/// generations leave the front, and the rest of the chain carries over to
/// the rest of the run.
proof fn lemma_step_chain(m: MixerModel, cmds: Seq<MixerCommand>)
    requires
        model_inv(m),
        cmds.len() > 0,
    ensures
        ({
            let m2 = step_model(m, cmds[0]).0;
            let torn = opt_gens(step_model(m, cmds[0]).1);
            &&& torn.len() <= gen_chain(m, cmds).len()
            &&& torn == gen_chain(m, cmds).take(torn.len() as int)
            &&& gen_chain(m2, cmds.skip(1)) == gen_chain(m, cmds).skip(torn.len() as int)
        }),
{
    let m2 = step_model(m, cmds[0]).0;
    let torn = opt_gens(step_model(m, cmds[0]).1);
    let chain = gen_chain(m, cmds);
    match cmds[0] {
        MixerCommand::SetConn { generation } => {
            assert(setconn_gens(cmds) == seq![generation] + setconn_gens(cmds.skip(1)));
            if m.poisoned {
                assert(m.conn_gen is None);
                assert(chain =~= seq![generation] + setconn_gens(cmds.skip(1)));
                assert(torn =~= chain.take(1));
                assert(gen_chain(m2, cmds.skip(1)) =~= chain.skip(1));
            } else {
                match m.conn_gen {
                    Some(g0) => {
                        assert(chain =~= seq![g0, generation] + setconn_gens(cmds.skip(1)));
                        assert(torn =~= chain.take(1));
                        assert(gen_chain(m2, cmds.skip(1)) =~= chain.skip(1));
                    },
                    None => {
                        assert(torn =~= chain.take(0));
                        assert(gen_chain(m2, cmds.skip(1)) =~= chain.skip(0));
                    },
                }
            }
        },
        MixerCommand::DropConn => {
            assert(setconn_gens(cmds) == Seq::<u32>::empty() + setconn_gens(cmds.skip(1)));
            assert(setconn_gens(cmds) =~= setconn_gens(cmds.skip(1)));
            let d = torn.len() as int;
            assert(torn =~= chain.take(d));
            assert(gen_chain(m2, cmds.skip(1)) =~= chain.skip(d));
        },
        MixerCommand::Poison => {
            assert(setconn_gens(cmds) == Seq::<u32>::empty() + setconn_gens(cmds.skip(1)));
            assert(setconn_gens(cmds) =~= setconn_gens(cmds.skip(1)));
            let d = torn.len() as int;
            assert(torn =~= chain.take(d));
            assert(gen_chain(m2, cmds.skip(1)) =~= chain.skip(d));
        },
        _ => {
            assert(setconn_gens(cmds) == Seq::<u32>::empty() + setconn_gens(cmds.skip(1)));
            assert(setconn_gens(cmds) =~= setconn_gens(cmds.skip(1)));
            assert(m2.conn_gen == m.conn_gen);
            assert(torn =~= chain.take(0));
            assert(gen_chain(m2, cmds.skip(1)) =~= chain.skip(0));
        },
    }
}

/// Law (teardown exactly-once): over any run, the generations torn down
/// are exactly an initial segment of the generation chain — the installed
/// connection first, then the handed-over ones, in handoff order. Every
/// entry of the chain stands for one constructed connection, so a
/// connection is torn down at most once, and none is skipped while a
/// later one is torn down.
pub proof fn lemma_teardown_prefix(m: MixerModel, cmds: Seq<MixerCommand>)
    requires
        model_inv(m),
    ensures
        run_torn(m, cmds).len() <= gen_chain(m, cmds).len(),
        run_torn(m, cmds) == gen_chain(m, cmds).take(run_torn(m, cmds).len() as int),
    decreases cmds.len(),
{
    let chain = gen_chain(m, cmds);
    if cmds.len() == 0 {
        assert(run_torn(m, cmds) =~= chain.take(0));
    } else {
        let m2 = step_model(m, cmds[0]).0;
        let torn0 = opt_gens(step_model(m, cmds[0]).1);
        let d = torn0.len() as int;
        lemma_step_chain(m, cmds);
        lemma_step_preserves_inv(m, cmds[0]);
        lemma_teardown_prefix(m2, cmds.skip(1));
        let rest = run_torn(m2, cmds.skip(1));
        let k = rest.len() as int;
        assert(run_torn(m, cmds) == torn0 + rest);
        assert(rest == gen_chain(m2, cmds.skip(1)).take(k));
        assert(gen_chain(m2, cmds.skip(1)) == chain.skip(d));
        assert(chain.skip(d).take(k) =~= chain.subrange(d, d + k));
        assert(torn0 + chain.subrange(d, d + k) =~= chain.take(d + k));
        assert(run_torn(m, cmds).len() == d + k);
    }
}

/// Law (no double teardown): when the generation chain is duplicate-free
/// — each handoff names a fresh connection epoch — no generation is ever
/// torn down twice over a run.
pub proof fn lemma_teardown_at_most_once(m: MixerModel, cmds: Seq<MixerCommand>)
    requires
        model_inv(m),
        gen_chain(m, cmds).no_duplicates(),
    ensures
        run_torn(m, cmds).no_duplicates(),
{
    lemma_teardown_prefix(m, cmds);
    let torn = run_torn(m, cmds);
    let chain = gen_chain(m, cmds);
    assert forall|i: int, j: int| 0 <= i < torn.len() && 0 <= j < torn.len() && i != j
        implies torn[i] != torn[j] by {
        assert(torn[i] == chain[i]);
        assert(torn[j] == chain[j]);
    }
}

/// Law (generation monotonicity): over any run whose handoffs carry
/// non-decreasing generation ids, the generation installed in the mixer —
/// as downstream consumers observe it after each command — never
/// decreases, and never falls below where the chain began.
pub proof fn lemma_generation_monotonic(m: MixerModel, cmds: Seq<MixerCommand>)
    requires
        model_inv(m),
        non_decreasing(gen_chain(m, cmds)),
    ensures
        non_decreasing(gen_trace(m, cmds)),
        gen_trace(m, cmds).len() > 0 ==> gen_chain(m, cmds).len() > 0,
        forall|k: int| 0 <= k < gen_trace(m, cmds).len() ==> gen_chain(m, cmds)[0]
            <= gen_trace(m, cmds)[k],
    decreases cmds.len(),
{
    if cmds.len() == 0 {
        assert(gen_trace(m, cmds) =~= Seq::<u32>::empty());
    }
    if cmds.len() > 0 {
        let m2 = step_model(m, cmds[0]).0;
        let d = opt_gens(step_model(m, cmds[0]).1).len() as int;
        let chain = gen_chain(m, cmds);
        let chain2 = gen_chain(m2, cmds.skip(1));
        lemma_step_chain(m, cmds);
        lemma_step_preserves_inv(m, cmds[0]);
        assert(chain2 == chain.skip(d));
        assert forall|i: int, j: int| 0 <= i <= j < chain2.len() implies chain2[i]
            <= chain2[j] by {
            assert(chain2[i] == chain[d + i]);
            assert(chain2[j] == chain[d + j]);
        }
        lemma_generation_monotonic(m2, cmds.skip(1));
        let rest = gen_trace(m2, cmds.skip(1));
        let trace = gen_trace(m, cmds);
        assert(trace == opt_gens(m2.conn_gen) + rest);
        match m2.conn_gen {
            Some(g2) => {
                assert(chain2.len() > 0);
                assert(chain2.len() == chain.len() - d);
                assert(d < chain.len());
                assert(chain2[0] == g2);
                assert(trace[0] == g2);
                assert(chain[0] <= chain[d]);
                assert(chain[d] == g2);
                assert(trace.len() > 0 && chain.len() > 0);
                assert forall|k: int| 0 <= k < trace.len() implies chain[0] <= trace[k] by {
                    if k > 0 {
                        assert(trace[k] == rest[k - 1]);
                        assert(chain2[0] <= rest[k - 1]);
                    }
                }
                assert forall|i: int, j: int| 0 <= i <= j < trace.len() implies trace[i]
                    <= trace[j] by {
                    if i > 0 {
                        assert(trace[i] == rest[i - 1]);
                        assert(trace[j] == rest[j - 1]);
                    } else if j > 0 {
                        assert(trace[0] == g2);
                        assert(trace[j] == rest[j - 1]);
                        assert(chain2[0] <= rest[j - 1]);
                    }
                }
            },
            None => {
                assert(trace =~= rest);
                if trace.len() > 0 {
                    assert(rest.len() > 0);
                    assert(chain2.len() > 0);
                    assert(chain2.len() == chain.len() - d);
                    assert(d < chain.len());
                    assert(chain.len() > 0);
                }
                assert forall|k: int| 0 <= k < trace.len() implies chain[0] <= trace[k] by {
                    assert(rest[k] >= chain2[0]);
                    assert(chain2.len() > 0);
                    assert(chain2.len() == chain.len() - d);
                    assert(d < chain.len());
                    assert(chain2[0] == chain[d]);
                    assert(chain[0] <= chain[d]);
                }
            },
        }
    }
}

} // verus!
