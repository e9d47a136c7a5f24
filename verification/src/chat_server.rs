//! Chat sessions and the decisions of the chat server.
//!
//! The server keeps, for each connected user, the address of the user's
//! websocket session and the chat room that the session has joined. A message
//! is forwarded to the receiver's session when it is connected, then stored,
//! counted as unread and announced by a push notification, each step only after
//! the previous one succeeded. Joining a chat checks membership, records the
//! room and clears the unread count. The work between decisions (database calls,
//! notifications, sending to a session) is done by the caller, which feeds each
//! outcome back.

use std::collections::HashMap;
use vstd::prelude::*;
use crate::decimal::{decimal, law_decimal_reads_back, read_digits, render_i32};

verus! {

/// A chat message sent by a user to the server.
#[derive(Clone, Debug)]
pub struct ChatMessageToServer {
    pub sender_id: i32,
    pub receiver_id: i32,
    pub chat_id: i32,
    pub content: String,
}

/// A user's session disconnected.
#[derive(Clone, Copy, Debug)]
pub struct Disconnect {
    pub user_id: i32,
}

/// A user asks to join a chat group.
#[derive(Clone, Copy, Debug)]
pub struct Join {
    pub user_id: i32,
    pub chat_id: i32,
}

/// A session entry: the session's address and the room it has joined, if any.
pub type SessionEntry<A> = (A, Option<i32>);

/// The connected sessions, keyed by user id. `A` is the address of a session.
pub struct SessionRegistry<A> {
    sessions: HashMap<i32, SessionEntry<A>>,
}

impl<A> View for SessionRegistry<A> {
    type V = Map<i32, SessionEntry<A>>;

    closed spec fn view(&self) -> Map<i32, SessionEntry<A>> {
        self.sessions@
    }
}

impl<A> SessionRegistry<A> {
    /// A registry with no session.
    pub fn new() -> (registry: Self)
        ensures
            registry@ == Map::<i32, SessionEntry<A>>::empty(),
    {
        SessionRegistry { sessions: HashMap::new() }
    }

    /// Registers the session of `user_id`, in no room; an earlier session of the
    /// same user is replaced.
    pub fn connect(&mut self, user_id: i32, addr: A)
        ensures
            final(self)@ == old(self)@.insert(user_id, (addr, None::<i32>)),
    {
        self.sessions.insert(user_id, (addr, None));
    }

    /// Forgets the session of `user_id`; tells whether there was one.
    pub fn disconnect(&mut self, user_id: i32) -> (existed: bool)
        ensures
            existed == old(self)@.contains_key(user_id),
            final(self)@ == old(self)@.remove(user_id),
    {
        match self.sessions.remove(&user_id) {
            Some(_) => true,
            None => false,
        }
    }

    /// The address of the session of `user_id`, if connected.
    pub fn recipient(&self, user_id: i32) -> (addr: Option<&A>)
        ensures
            match addr {
                Some(a) => self@.contains_key(user_id) && *a == self@[user_id].0,
                None => !self@.contains_key(user_id),
            },
    {
        match self.sessions.get(&user_id) {
            Some(entry) => Some(&entry.0),
            None => None,
        }
    }

    /// The room that the session of `user_id` has joined, if the user is connected.
    pub fn room(&self, user_id: i32) -> (room: Option<Option<i32>>)
        ensures
            match room {
                Some(r) => self@.contains_key(user_id) && r == self@[user_id].1,
                None => !self@.contains_key(user_id),
            },
    {
        match self.sessions.get(&user_id) {
            Some(entry) => Some(entry.1),
            None => None,
        }
    }

    /// Records that the session of `user_id` is in room `chat_id`; tells whether
    /// the user has a session. Without one nothing changes.
    pub fn enter_room(&mut self, user_id: i32, chat_id: i32) -> (entered: bool)
        ensures
            entered == old(self)@.contains_key(user_id),
            entered ==> final(self)@ == old(self)@.insert(
                user_id,
                (old(self)@[user_id].0, Some(chat_id)),
            ),
            !entered ==> final(self)@ == old(self)@,
    {
        match self.sessions.remove(&user_id) {
            Some(entry) => {
                let (addr, _) = entry;
                self.sessions.insert(user_id, (addr, Some(chat_id)));
                proof {
                    assert(self@ =~= old(self)@.insert(
                        user_id,
                        (old(self)@[user_id].0, Some(chat_id)),
                    ));
                }
                true
            },
            None => {
                proof {
                    assert(self@ =~= old(self)@);
                }
                false
            },
        }
    }
}

/// Connecting a user who had no session and then disconnecting that user leaves
/// the sessions as they were.
pub proof fn law_disconnect_undoes_connect<A>(
    sessions: Map<i32, SessionEntry<A>>,
    user_id: i32,
    addr: A,
)
    requires
        !sessions.contains_key(user_id),
    ensures
        sessions.insert(user_id, (addr, None::<i32>)).remove(user_id) == sessions,
{
    assert(sessions.insert(user_id, (addr, None::<i32>)).remove(user_id) =~= sessions);
}

/// After a user connects, the user's session has the new address and no room,
/// and every other user's session is as it was.
pub proof fn law_connect_registers<A>(
    sessions: Map<i32, SessionEntry<A>>,
    user_id: i32,
    addr: A,
    other_id: i32,
)
    requires
        other_id != user_id,
    ensures
        sessions.insert(user_id, (addr, None::<i32>))[user_id] == (addr, None::<i32>),
        sessions.insert(user_id, (addr, None::<i32>)).contains_key(other_id) == sessions.contains_key(
            other_id,
        ),
        sessions.contains_key(other_id) ==> sessions.insert(user_id, (addr, None::<i32>))[other_id]
            == sessions[other_id],
{
}

/// Entering a room keeps the user's session address, and leaves the set of
/// connected users and every other user's session unchanged.
pub proof fn law_enter_room_keeps_sessions<A>(
    sessions: Map<i32, SessionEntry<A>>,
    user_id: i32,
    chat_id: i32,
    other_id: i32,
)
    requires
        sessions.contains_key(user_id),
        other_id != user_id,
    ensures
        ({
            let entered = sessions.insert(user_id, (sessions[user_id].0, Some(chat_id)));
            &&& entered.dom() == sessions.dom()
            &&& entered[user_id].0 == sessions[user_id].0
            &&& entered[user_id].1 == Some(chat_id)
            &&& sessions.contains_key(other_id) ==> entered[other_id] == sessions[other_id]
        }),
{
    let entered = sessions.insert(user_id, (sessions[user_id].0, Some(chat_id)));
    assert(entered.dom() =~= sessions.dom());
}

/// A push notification about a new message.
#[derive(Clone, Debug)]
pub struct PostNotificationRequest {
    pub to: String,
    pub title: String,
    pub body: String,
}

/// Where the handling of a chat message stands.
#[derive(Clone, Copy, Debug, PartialEq, Eq, Structural)]
pub enum DeliveryStep {
    /// The message is being stored.
    StoreMessage,
    /// The receiver's unread count is being incremented.
    IncrementUnread,
    /// The other user's push token is being fetched.
    FetchPushToken,
    /// The push notification is being sent.
    SendNotification,
    /// Nothing more is to be done.
    Finished,
}

/// What the caller reports about the work it was last asked to do.
#[derive(Debug)]
pub enum DeliveryEvent {
    /// The work succeeded (storing, incrementing, or sending the notification).
    Succeeded,
    /// The work failed.
    Failed,
    /// The push token was fetched: present or not.
    PushToken(Option<String>),
}

/// What the caller is asked to do next.
#[derive(Debug)]
pub enum DeliveryAction {
    /// Store the message in chat `chat_id`, sent by `sender_id`.
    InsertChatMessage { sender_id: i32, chat_id: i32, content: String },
    /// Increment the unread count of chat `chat_id` for the user other than `sender_id`.
    IncrementUnreadCount { chat_id: i32, sender_id: i32 },
    /// Fetch the push token of the user other than `sender_id` in chat `chat_id`.
    FetchPushToken { sender_id: i32, chat_id: i32 },
    /// Send this push notification.
    SendNotification(PostNotificationRequest),
    /// Nothing more.
    Stop,
}

impl DeliveryStep {
    /// The step that follows this one once `event` is reported: the next step on
    /// success, `Finished` on failure, on a missing push token, after the
    /// notification, and on an event that does not answer the step.
    pub open spec fn after(self, event: DeliveryEvent) -> DeliveryStep {
        match (self, event) {
            (DeliveryStep::StoreMessage, DeliveryEvent::Succeeded) => DeliveryStep::IncrementUnread,
            (DeliveryStep::IncrementUnread, DeliveryEvent::Succeeded) => DeliveryStep::FetchPushToken,
            (DeliveryStep::FetchPushToken, DeliveryEvent::PushToken(Some(_))) => DeliveryStep::SendNotification,
            _ => DeliveryStep::Finished,
        }
    }
}

/// The step reached from `step` after each event of `events` in turn.
pub open spec fn step_after_all(step: DeliveryStep, events: Seq<DeliveryEvent>) -> DeliveryStep
    decreases events.len(),
{
    if events.len() == 0 {
        step
    } else {
        step_after_all(step.after(events[0]), events.drop_first())
    }
}

/// The handling of one chat message, after it was forwarded to the receiver's session.
pub struct MessageDelivery {
    message: ChatMessageToServer,
    step: DeliveryStep,
}

impl MessageDelivery {
    /// The message being handled.
    pub closed spec fn message(&self) -> ChatMessageToServer {
        self.message
    }

    /// The step the handling is at.
    pub closed spec fn step(&self) -> DeliveryStep {
        self.step
    }

    /// The action that asks for the work of `step` on `message`, for every step
    /// but `SendNotification`, whose action carries the fetched push token.
    pub open spec fn spec_action(
        message: ChatMessageToServer,
        step: DeliveryStep,
    ) -> DeliveryAction {
        match step {
            DeliveryStep::StoreMessage => DeliveryAction::InsertChatMessage {
                sender_id: message.sender_id,
                chat_id: message.chat_id,
                content: message.content,
            },
            DeliveryStep::IncrementUnread => DeliveryAction::IncrementUnreadCount {
                chat_id: message.chat_id,
                sender_id: message.sender_id,
            },
            DeliveryStep::FetchPushToken => DeliveryAction::FetchPushToken {
                sender_id: message.sender_id,
                chat_id: message.chat_id,
            },
            _ => DeliveryAction::Stop,
        }
    }

    /// The address to forward the message to right away: the receiver's
    /// session, if connected, with the content to send.
    pub fn live_recipient<'a, A>(
        sessions: &'a SessionRegistry<A>,
        message: &ChatMessageToServer,
    ) -> (target: Option<(&'a A, String)>)
        ensures
            match target {
                Some((addr, content)) => {
                    &&& sessions@.contains_key(message.receiver_id)
                    &&& *addr == sessions@[message.receiver_id].0
                    &&& content@ == message.content@
                },
                None => !sessions@.contains_key(message.receiver_id),
            },
    {
        match sessions.recipient(message.receiver_id) {
            Some(addr) => Some((addr, message.content.clone())),
            None => None,
        }
    }

    /// The step the handling is at.
    pub fn current_step(&self) -> (step: DeliveryStep)
        ensures
            step == self.step(),
    {
        self.step
    }

    /// Starts handling `message`: the first action stores it.
    pub fn start(message: ChatMessageToServer) -> (started: (MessageDelivery, DeliveryAction))
        ensures
            started.0.message() == message,
            started.0.step() == DeliveryStep::StoreMessage,
            started.1 == Self::spec_action(message, DeliveryStep::StoreMessage),
            started.1 == (DeliveryAction::InsertChatMessage {
                sender_id: message.sender_id,
                chat_id: message.chat_id,
                content: message.content,
            }),
    {
        let action = DeliveryAction::InsertChatMessage {
            sender_id: message.sender_id,
            chat_id: message.chat_id,
            content: message.content.clone(),
        };
        (MessageDelivery { message, step: DeliveryStep::StoreMessage }, action)
    }

    /// Takes in what came of the last action and says what to do next. After a
    /// success the next step's work is asked for; a fetched push token leads to a
    /// notification titled "New Message" with the message's content as its body,
    /// sent to that token; anything else ends the handling.
    pub fn advance(&mut self, event: DeliveryEvent) -> (action: DeliveryAction)
        ensures
            final(self).message() == old(self).message(),
            final(self).step() == old(self).step().after(event),
            final(self).step() != DeliveryStep::SendNotification ==> action == Self::spec_action(
                old(self).message(),
                final(self).step(),
            ),
            final(self).step() == DeliveryStep::SendNotification ==> match event {
                DeliveryEvent::PushToken(Some(token)) => match action {
                    DeliveryAction::SendNotification(notification) => {
                        &&& notification.to == token
                        &&& notification.title@ == "New Message"@
                        &&& notification.body == old(self).message().content
                    },
                    _ => false,
                },
                _ => false,
            },
            old(self).step() == DeliveryStep::StoreMessage && event is Succeeded ==> {
                &&& final(self).step() == DeliveryStep::IncrementUnread
                &&& action == (DeliveryAction::IncrementUnreadCount {
                    chat_id: old(self).message().chat_id,
                    sender_id: old(self).message().sender_id,
                })
            },
            old(self).step() == DeliveryStep::IncrementUnread && event is Succeeded ==> {
                &&& final(self).step() == DeliveryStep::FetchPushToken
                &&& action == (DeliveryAction::FetchPushToken {
                    sender_id: old(self).message().sender_id,
                    chat_id: old(self).message().chat_id,
                })
            },
            old(self).step() == DeliveryStep::FetchPushToken ==> match event {
                DeliveryEvent::PushToken(Some(token)) => {
                    &&& final(self).step() == DeliveryStep::SendNotification
                    &&& action matches DeliveryAction::SendNotification(notification)
                    &&& notification.to == token
                    &&& notification.title@ == "New Message"@
                    &&& notification.body == old(self).message().content
                },
                _ => final(self).step() == DeliveryStep::Finished && action is Stop,
            },
            !(old(self).step() == DeliveryStep::StoreMessage && event is Succeeded)
                && !(old(self).step() == DeliveryStep::IncrementUnread && event is Succeeded)
                && !(old(self).step() == DeliveryStep::FetchPushToken && event matches DeliveryEvent::PushToken(Some(_)))
                ==> final(self).step() == DeliveryStep::Finished && action is Stop,
    {
        let step = self.step;
        match (step, event) {
            (DeliveryStep::StoreMessage, DeliveryEvent::Succeeded) => {
                self.step = DeliveryStep::IncrementUnread;
                DeliveryAction::IncrementUnreadCount {
                    chat_id: self.message.chat_id,
                    sender_id: self.message.sender_id,
                }
            },
            (DeliveryStep::IncrementUnread, DeliveryEvent::Succeeded) => {
                self.step = DeliveryStep::FetchPushToken;
                DeliveryAction::FetchPushToken {
                    sender_id: self.message.sender_id,
                    chat_id: self.message.chat_id,
                }
            },
            (DeliveryStep::FetchPushToken, DeliveryEvent::PushToken(Some(token))) => {
                self.step = DeliveryStep::SendNotification;
                DeliveryAction::SendNotification(
                    PostNotificationRequest {
                        to: token,
                        title: String::from_str("New Message"),
                        body: self.message.content.clone(),
                    },
                )
            },
            _ => {
                self.step = DeliveryStep::Finished;
                DeliveryAction::Stop
            },
        }
    }
}

/// Handling a message ends within four reported outcomes, from any step.
pub proof fn law_delivery_ends(step: DeliveryStep, events: Seq<DeliveryEvent>)
    requires
        events.len() >= 4,
    ensures
        step_after_all(step, events) == DeliveryStep::Finished,
{
    lemma_finished_stays(step.after(events[0]).after(events[1]).after(events[2]).after(events[3]),
        events.skip(4));
    assert(events.drop_first().drop_first().drop_first().drop_first() =~= events.skip(4));
    reveal_with_fuel(step_after_all, 5);
}

/// Once finished, the handling stays finished whatever is reported.
pub proof fn lemma_finished_stays(step: DeliveryStep, events: Seq<DeliveryEvent>)
    requires
        step == DeliveryStep::Finished,
    ensures
        step_after_all(step, events) == DeliveryStep::Finished,
    decreases events.len(),
{
    if events.len() > 0 {
        lemma_finished_stays(step.after(events[0]), events.drop_first());
    }
}

/// A push notification is sent (the handling of a fresh message reaches
/// `SendNotification` after three outcomes) exactly when the message was stored,
/// the unread count was incremented, and a push token was found.
pub proof fn law_notification_only_after_success(e0: DeliveryEvent, e1: DeliveryEvent, e2: DeliveryEvent)
    ensures
        step_after_all(DeliveryStep::StoreMessage, seq![e0, e1, e2]) == DeliveryStep::SendNotification
            <==> (e0 is Succeeded && e1 is Succeeded && e2 matches DeliveryEvent::PushToken(Some(_))),
{
    let events = seq![e0, e1, e2];
    assert(events.drop_first() =~= seq![e1, e2]);
    assert(events.drop_first().drop_first() =~= seq![e2]);
    assert(events.drop_first().drop_first().drop_first() =~= Seq::<DeliveryEvent>::empty());
    reveal_with_fuel(step_after_all, 4);
}

/// Where a request to join a chat group stands.
#[derive(Clone, Copy, Debug, PartialEq, Eq, Structural)]
pub enum JoinStep {
    /// Membership of the user in the chat group is being checked.
    CheckMembership,
    /// The user's unread count is being cleared; the other member of the chat is kept.
    ClearUnread(i32),
    /// The request has been answered.
    Finished,
}

/// What the caller is asked to do next for a join request.
#[derive(Debug)]
pub enum JoinAction {
    /// Check whether `user_id` belongs to chat `chat_id`, and who the other member is.
    CheckMembership { user_id: i32, chat_id: i32 },
    /// Clear the unread count of `user_id` in chat `chat_id`.
    ClearUnreadCount { user_id: i32, chat_id: i32 },
    /// Answer the request: the other member's id, or why the join failed.
    Reply(Result<i32, String>),
}

/// The answer when checking membership failed with error text `error`.
pub open spec fn membership_failed_text(error: Seq<char>) -> Seq<char> {
    "Failed to check if user is part of chat group: "@ + error + "\n"@
}

/// The answer when the user does not belong to the chat group.
pub open spec fn not_a_member_text() -> Seq<char> {
    "You are not part of this chat group"@
}

/// The answer when the user has no session.
pub open spec fn no_session_text(user_id: i32) -> Seq<char> {
    "Session with id "@ + decimal(user_id as int) + " does not exist"@
}

/// The answer when clearing the unread count failed with error text `error`.
pub open spec fn clear_failed_text(error: Seq<char>) -> Seq<char> {
    "Failed to clear unread count: "@ + error + "\n"@
}

/// Whether `action` answers the request with the failure text `text`.
pub open spec fn replies_error(action: JoinAction, text: Seq<char>) -> bool {
    action matches JoinAction::Reply(Err(t)) && t@ == text
}

/// The handling of one request to join a chat group.
pub struct JoinFlow {
    request: Join,
    step: JoinStep,
}

impl JoinFlow {
    /// The request being handled.
    pub closed spec fn request(&self) -> Join {
        self.request
    }

    /// The step the handling is at.
    pub closed spec fn step(&self) -> JoinStep {
        self.step
    }

    /// The step the handling is at.
    pub fn current_step(&self) -> (step: JoinStep)
        ensures
            step == self.step(),
    {
        self.step
    }

    /// Starts handling `request`: membership is checked first.
    pub fn start(request: Join) -> (started: (JoinFlow, JoinAction))
        ensures
            started.0.request() == request,
            started.0.step() == JoinStep::CheckMembership,
            started.1 == (JoinAction::CheckMembership {
                user_id: request.user_id,
                chat_id: request.chat_id,
            }),
    {
        (
            JoinFlow { request, step: JoinStep::CheckMembership },
            JoinAction::CheckMembership { user_id: request.user_id, chat_id: request.chat_id },
        )
    }

    /// Takes in the membership check: its error text, or the other member of the
    /// chat if the user belongs to it. A member with a session is put in the
    /// chat's room and the unread count is cleared next; every other case is
    /// answered at once and leaves the sessions as they were.
    pub fn on_membership<A>(
        &mut self,
        sessions: &mut SessionRegistry<A>,
        membership: Result<Option<i32>, String>,
    ) -> (action: JoinAction)
        requires
            old(self).step() == JoinStep::CheckMembership,
        ensures
            final(self).request() == old(self).request(),
            match membership {
                Err(error) => {
                    &&& replies_error(action, membership_failed_text(error@))
                    &&& final(self).step() == JoinStep::Finished
                    &&& final(sessions)@ == old(sessions)@
                },
                Ok(None) => {
                    &&& replies_error(action, not_a_member_text())
                    &&& final(self).step() == JoinStep::Finished
                    &&& final(sessions)@ == old(sessions)@
                },
                Ok(Some(other_user_id)) => {
                    let user_id = old(self).request().user_id;
                    let chat_id = old(self).request().chat_id;
                    if old(sessions)@.contains_key(user_id) {
                        &&& action == (JoinAction::ClearUnreadCount { user_id, chat_id })
                        &&& final(self).step() == JoinStep::ClearUnread(other_user_id)
                        &&& final(sessions)@ == old(sessions)@.insert(
                            user_id,
                            (old(sessions)@[user_id].0, Some(chat_id)),
                        )
                    } else {
                        &&& replies_error(action, no_session_text(user_id))
                        &&& final(self).step() == JoinStep::Finished
                        &&& final(sessions)@ == old(sessions)@
                    }
                },
            },
    {
        let user_id = self.request.user_id;
        let chat_id = self.request.chat_id;
        match membership {
            Err(error) => {
                self.step = JoinStep::Finished;
                let mut text = String::from_str("Failed to check if user is part of chat group: ");
                text.append(error.as_str());
                text.append("\n");
                JoinAction::Reply(Err(text))
            },
            Ok(None) => {
                self.step = JoinStep::Finished;
                JoinAction::Reply(Err(String::from_str("You are not part of this chat group")))
            },
            Ok(Some(other_user_id)) => {
                if sessions.enter_room(user_id, chat_id) {
                    self.step = JoinStep::ClearUnread(other_user_id);
                    JoinAction::ClearUnreadCount { user_id, chat_id }
                } else {
                    self.step = JoinStep::Finished;
                    let mut text = String::from_str("Session with id ");
                    let id = render_i32(user_id);
                    text.append(id.as_str());
                    text.append(" does not exist");
                    JoinAction::Reply(Err(text))
                }
            },
        }
    }

    /// Takes in the outcome of clearing the unread count: the request is answered
    /// with the other member's id, or with the error text.
    pub fn on_unread_cleared(&mut self, cleared: Result<(), String>) -> (action: JoinAction)
        requires
            old(self).step() is ClearUnread,
        ensures
            final(self).request() == old(self).request(),
            final(self).step() == JoinStep::Finished,
            match cleared {
                Ok(()) => action == JoinAction::Reply(Ok(old(self).step()->ClearUnread_0)),
                Err(error) => replies_error(action, clear_failed_text(error@)),
            },
    {
        let other_user_id = match self.step {
            JoinStep::ClearUnread(other) => other,
            _ => 0,
        };
        self.step = JoinStep::Finished;
        match cleared {
            Ok(()) => JoinAction::Reply(Ok(other_user_id)),
            Err(error) => {
                let mut text = String::from_str("Failed to clear unread count: ");
                text.append(error.as_str());
                text.append("\n");
                JoinAction::Reply(Err(text))
            },
        }
    }
}

/// Every action of a message's handling names the message's own sender and chat:
/// the message is stored as sent by its sender, with its content; the unread
/// count and the push token are those of the user other than the sender (the
/// receiver); and only the storing, incrementing and fetching steps ask for work.
pub proof fn law_delivery_actions_name_the_sender(message: ChatMessageToServer)
    ensures
        MessageDelivery::spec_action(message, DeliveryStep::StoreMessage) == (
        DeliveryAction::InsertChatMessage {
            sender_id: message.sender_id,
            chat_id: message.chat_id,
            content: message.content,
        }),
        MessageDelivery::spec_action(message, DeliveryStep::IncrementUnread) == (
        DeliveryAction::IncrementUnreadCount {
            chat_id: message.chat_id,
            sender_id: message.sender_id,
        }),
        MessageDelivery::spec_action(message, DeliveryStep::FetchPushToken) == (
        DeliveryAction::FetchPushToken {
            sender_id: message.sender_id,
            chat_id: message.chat_id,
        }),
        MessageDelivery::spec_action(message, DeliveryStep::SendNotification) is Stop,
        MessageDelivery::spec_action(message, DeliveryStep::Finished) is Stop,
{
}

/// A success moves the handling exactly one step on, in the order store,
/// increment, fetch the token; a found token leads to the notification; and any
/// failure, a missing token, or an outcome after the notification ends it.
pub proof fn law_delivery_steps_in_order(event: DeliveryEvent)
    ensures
        DeliveryStep::StoreMessage.after(DeliveryEvent::Succeeded) == DeliveryStep::IncrementUnread,
        DeliveryStep::IncrementUnread.after(DeliveryEvent::Succeeded) == DeliveryStep::FetchPushToken,
        event matches DeliveryEvent::PushToken(Some(_)) ==> DeliveryStep::FetchPushToken.after(event)
            == DeliveryStep::SendNotification,
        !(event is Succeeded) ==> DeliveryStep::StoreMessage.after(event) == DeliveryStep::Finished,
        !(event is Succeeded) ==> DeliveryStep::IncrementUnread.after(event) == DeliveryStep::Finished,
        !(event matches DeliveryEvent::PushToken(Some(_))) ==> DeliveryStep::FetchPushToken.after(event)
            == DeliveryStep::Finished,
        DeliveryStep::SendNotification.after(event) == DeliveryStep::Finished,
        DeliveryStep::Finished.after(event) == DeliveryStep::Finished,
{
}

/// The failure answers of a join request: a failed check or a failed clearing is
/// its fixed lead, then the whole error text, then a newline; a missing session
/// names the user by the decimal text of the id, which reads back as the id.
pub proof fn law_join_failure_texts(error: Seq<char>, user_id: i32)
    ensures
        ({
            let lead = "Failed to check if user is part of chat group: "@;
            let text = membership_failed_text(error);
            &&& text.len() == lead.len() + error.len() + 1
            &&& text.subrange(0, lead.len() as int) == lead
            &&& text.subrange(lead.len() as int, (lead.len() + error.len()) as int) == error
            &&& text.last() == '\n'
        }),
        ({
            let lead = "Failed to clear unread count: "@;
            let text = clear_failed_text(error);
            &&& text.len() == lead.len() + error.len() + 1
            &&& text.subrange(0, lead.len() as int) == lead
            &&& text.subrange(lead.len() as int, (lead.len() + error.len()) as int) == error
            &&& text.last() == '\n'
        }),
        ({
            let lead = "Session with id "@;
            let tail = " does not exist"@;
            let text = no_session_text(user_id);
            let id_text = text.subrange(lead.len() as int, text.len() - tail.len());
            &&& text.subrange(0, lead.len() as int) == lead
            &&& text.subrange(text.len() - tail.len(), text.len() as int) == tail
            &&& id_text == decimal(user_id as int)
            &&& user_id >= 0 ==> read_digits(id_text) == user_id
            &&& user_id < 0 ==> id_text[0] == '-' && read_digits(id_text.drop_first()) == -user_id
        }),
        not_a_member_text() == "You are not part of this chat group"@,
{
    reveal_strlit("\n");
    let e1 = "Failed to check if user is part of chat group: "@;
    let t1 = membership_failed_text(error);
    assert(t1 =~= e1 + error + "\n"@);
    assert(t1.subrange(0, e1.len() as int) =~= e1);
    assert(t1.subrange(e1.len() as int, (e1.len() + error.len()) as int) =~= error);
    let e2 = "Failed to clear unread count: "@;
    let t2 = clear_failed_text(error);
    assert(t2 =~= e2 + error + "\n"@);
    assert(t2.subrange(0, e2.len() as int) =~= e2);
    assert(t2.subrange(e2.len() as int, (e2.len() + error.len()) as int) =~= error);
    let lead = "Session with id "@;
    let tail = " does not exist"@;
    let t3 = no_session_text(user_id);
    let d = decimal(user_id as int);
    assert(t3 =~= lead + d + tail);
    assert(t3.subrange(0, lead.len() as int) =~= lead);
    assert(t3.subrange(t3.len() - tail.len(), t3.len() as int) =~= tail);
    assert(t3.subrange(lead.len() as int, t3.len() - tail.len()) =~= d);
    law_decimal_reads_back(user_id as int);
}

} // verus!
