use vstd::prelude::*;

use crate::bridge::clone_sender;
use crate::bridge::new_pick_channel;
use crate::bridge::try_recv_pick_result;
use crate::bridge::PickResult;
use crate::decode::decode_outcome;
use crate::decode::decode_pane_content;
use crate::decode::PaneContent;
use std::sync::mpsc::Receiver;
use std::sync::mpsc::Sender;

verus! {

/// The state behind the window: the last picked buffer, the pane content
/// decoded from it, the identifier for the next pick request, and the channel
/// on which pick results come back from the file-dialog tasks.
///
/// The buffer is absent at startup, set wholesale by each accepted pick
/// result, and never mutated in place. The pane content is decoded once, when
/// the buffer arrives, and always renders exactly the current buffer's decode
/// outcome.
pub struct TemplateApp {
    picked_file: Option<Vec<u8>>,
    decoded: Option<PaneContent>,
    next_request_id: u64,
    file_picked_sender: Sender<PickResult>,
    file_picked_receiver: Receiver<PickResult>,
}

impl TemplateApp {
    /// The picked buffer, absent until a pick result has been accepted.
    pub closed spec fn buffer(self) -> Option<Seq<u8>> {
        match self.picked_file {
            Some(b) => Some(b@),
            None => None,
        }
    }

    /// What the result pane shows: nothing before the first pick, afterwards
    /// the decode outcome of the current buffer.
    pub closed spec fn pane(self) -> Option<Result<Seq<char>, Seq<char>>> {
        match self.decoded {
            Some(c) => Some(c.as_outcome()),
            None => None,
        }
    }

    /// The identifier the next pick request will get.
    pub closed spec fn next_request(self) -> u64 {
        self.next_request_id
    }

    /// Well-formedness: pane content is present exactly when a buffer is, and
    /// it renders that buffer's decode outcome.
    pub closed spec fn wf(self) -> bool {
        &&& (self.picked_file is Some <==> self.decoded is Some)
        &&& (self.picked_file matches Some(b) ==> self.decoded matches Some(c)
            && c.as_outcome() == decode_outcome(b@))
    }

    /// A delivered result is accepted exactly when it answers the most recent
    /// pick request: its identifier immediately precedes the next one to be
    /// handed out. Results of superseded requests are discarded.
    pub open spec fn accepts(self, id: u64) -> bool {
        id + 1 == self.next_request()
    }

    pub fn new() -> (app: Self)
        ensures
            app.wf(),
            app.buffer() is None,
            app.pane() is None,
            app.next_request() == 0,
    {
        Self::default()
    }

    /// Starts a pick request: hands out a fresh request identifier and a
    /// producer handle for its result. The displayed state does not change;
    /// in particular a request that never delivers (a cancelled dialog)
    /// leaves the previously displayed content untouched.
    pub fn begin_pick(&mut self) -> (r: (u64, Sender<PickResult>))
        requires
            old(self).wf(),
        ensures
            final(self).wf(),
            r.0 == old(self).next_request(),
            old(self).next_request() < u64::MAX ==> final(self).next_request()
                == old(self).next_request() + 1,
            old(self).next_request() == u64::MAX ==> final(self).next_request() == u64::MAX,
            final(self).buffer() == old(self).buffer(),
            final(self).pane() == old(self).pane(),
    {
        let id = self.next_request_id;
        if self.next_request_id < u64::MAX {
            self.next_request_id = self.next_request_id + 1;
        }
        (id, clone_sender(&self.file_picked_sender))
    }

    /// Applies one delivered pick result. The result of the most recent
    /// request replaces the buffer wholesale and the pane shows its decode
    /// outcome; the result of a superseded request changes nothing.
    pub fn deliver_pick_result(&mut self, id: u64, bytes: Vec<u8>)
        requires
            old(self).wf(),
        ensures
            final(self).wf(),
            final(self).next_request() == old(self).next_request(),
            old(self).accepts(id) ==> final(self).buffer() == Some(bytes@)
                && final(self).pane() == Some(decode_outcome(bytes@)),
            !old(self).accepts(id) ==> final(self).buffer() == old(self).buffer()
                && final(self).pane() == old(self).pane(),
    {
        if id < u64::MAX && id + 1 == self.next_request_id {
            let content = decode_pane_content(&bytes);
            self.decoded = Some(content);
            self.picked_file = Some(bytes);
        }
    }

    /// Drains at most one pick result from the channel, as one redraw tick
    /// does. What arrives depends on the dialog tasks, so all that is promised
    /// is that the state stays well formed, the request counter is untouched,
    /// and an unchanged buffer keeps its pane content unchanged.
    pub fn poll_pick_results(&mut self)
        requires
            old(self).wf(),
        ensures
            final(self).wf(),
            final(self).next_request() == old(self).next_request(),
            final(self).buffer() == old(self).buffer() ==> final(self).pane()
                == old(self).pane(),
            final(self).buffer() != old(self).buffer() ==> final(self).buffer() is Some,
    {
        let received = try_recv_pick_result(&self.file_picked_receiver);
        if let Some((id, bytes)) = received {
            self.deliver_pick_result(id, bytes);
            proof {
                if self.buffer() == old(self).buffer() {
                    lemma_pane_is_function_of_buffer(*old(self), *self);
                }
            }
        }
    }

    /// The content for the result pane, absent until a buffer has arrived,
    /// afterwards exactly the current buffer's decode outcome.
    pub fn display_content(&self) -> (r: Option<&PaneContent>)
        requires
            self.wf(),
        ensures
            r is Some <==> self.buffer() is Some,
            r matches Some(c) ==> self.buffer() matches Some(b)
                && c.as_outcome() == decode_outcome(b),
            r matches Some(c) ==> Some(c.as_outcome()) == self.pane(),
    {
        match &self.decoded {
            Some(c) => Some(c),
            None => None,
        }
    }
}

impl Default for TemplateApp {
    /// The startup state: no buffer, an empty pane, and a fresh channel.
    fn default() -> (app: Self)
        ensures
            app.wf(),
            app.buffer() is None,
            app.pane() is None,
            app.next_request() == 0,
    {
        let (file_picked_sender, file_picked_receiver) = new_pick_channel();
        TemplateApp {
            picked_file: None,
            decoded: None,
            next_request_id: 0,
            file_picked_sender,
            file_picked_receiver,
        }
    }
}

/// Law: the pane is a function of the picked buffer alone. Two redraw ticks
/// that see the same buffer — the same frame rendered twice, or a tick after
/// a cancelled pick — display the same content.
pub proof fn lemma_pane_is_function_of_buffer(a: TemplateApp, b: TemplateApp)
    requires
        a.wf(),
        b.wf(),
        a.buffer() == b.buffer(),
    ensures
        a.pane() == b.pane(),
{
}

} // verus!
