//! The presentation state: what the window shows and what it asks for next.

use vstd::prelude::*;

use crate::date::PageIdentifier;

verus! {

/// Why an operation of the reader failed.
#[derive(Clone, Copy, Debug, PartialEq, Eq, Structural)]
pub enum Error {
    /// A text holds no run of eight decimal digits.
    MalformedIdentifier,
    /// The position file is missing at a path that the user chose.
    ConfigNotFound,
    /// The position file holds text that is not a position record.
    ConfigCorrupt,
    /// A request failed in transport or came back with a failure status.
    NetworkError,
    /// A request was not answered in time.
    FetchTimeout,
    /// A page could not be taken apart.
    ParseError,
    /// A page shows no comic image.
    ImageNotFound,
    /// The cache directory cannot be listed.
    CacheDirUnreadable,
    /// An image could not be written to the cache directory.
    DiskWriteError,
}

/// A page ready to be shown: its image in the cache directory, and its date.
#[derive(Debug, PartialEq, Eq)]
pub struct UiPage {
    /// The path of the image file.
    pub image: String,
    /// The page.
    pub date: PageIdentifier,
}

/// A `UiPage` as plain values.
pub struct UiPageView {
    pub image: Seq<char>,
    pub date: PageIdentifier,
}

impl View for UiPage {
    type V = UiPageView;

    open spec fn view(&self) -> UiPageView {
        UiPageView { image: self.image@, date: self.date }
    }
}

impl Clone for UiPage {
    fn clone(&self) -> (r: Self)
        ensures
            r == *self,
    {
        UiPage { image: self.image.clone(), date: self.date }
    }
}

/// What reaches the window: a button was pressed, or a load has ended.
#[derive(Debug, PartialEq, Eq)]
pub enum Message {
    /// The reader asks for the page after.
    Next,
    /// The reader asks for the page before.
    Prev,
    /// The reader asks for the page of the stored position again.
    Init,
    /// A load has ended, with a page or with an error.
    Loaded(Result<UiPage, Error>),
}

/// A `Message` as plain values.
pub enum MessageView {
    Next,
    Prev,
    Init,
    Loaded(Result<UiPageView, Error>),
}

impl View for Message {
    type V = MessageView;

    open spec fn view(&self) -> MessageView {
        match self {
            Message::Next => MessageView::Next,
            Message::Prev => MessageView::Prev,
            Message::Init => MessageView::Init,
            Message::Loaded(Ok(page)) => MessageView::Loaded(Ok(page@)),
            Message::Loaded(Err(e)) => MessageView::Loaded(Err(*e)),
        }
    }
}

impl Clone for Message {
    fn clone(&self) -> (r: Self)
        ensures
            r == *self,
    {
        match self {
            Message::Next => Message::Next,
            Message::Prev => Message::Prev,
            Message::Init => Message::Init,
            Message::Loaded(Ok(page)) => Message::Loaded(Ok(page.clone())),
            Message::Loaded(Err(e)) => Message::Loaded(Err(*e)),
        }
    }
}

/// The load that the window starts in answer to a message.
#[derive(Clone, Copy, Debug, PartialEq, Eq, Structural)]
pub enum Task {
    /// Nothing is started.
    Idle,
    /// The page of the stored position is loaded.
    Init,
    /// The page after is loaded.
    Next,
    /// The page before is loaded.
    Prev,
}

/// What the window shows.
#[derive(Debug, PartialEq, Eq)]
pub enum GggUi {
    /// A load is under way; the buttons are dead.
    Loading,
    /// A page is shown.
    Loaded { image: UiPage },
    /// The last load failed; only a new load of the stored position leads on.
    Errored,
}

/// A `GggUi` as plain values.
pub enum GggUiView {
    Loading,
    Loaded { image: UiPageView },
    Errored,
}

impl View for GggUi {
    type V = GggUiView;

    open spec fn view(&self) -> GggUiView {
        match self {
            GggUi::Loading => GggUiView::Loading,
            GggUi::Loaded { image } => GggUiView::Loaded { image: image@ },
            GggUi::Errored => GggUiView::Errored,
        }
    }
}

impl GggUiView {
    /// The text after the program's name in the title of the window.
    pub open spec fn subtitle(self) -> Seq<char> {
        match self {
            GggUiView::Loading => "Loading..."@,
            GggUiView::Loaded { image } => image.date.digits(),
            GggUiView::Errored => "Error"@,
        }
    }

    /// The title of the window.
    pub open spec fn title(self) -> Seq<char> {
        "GggUi - "@ + self.subtitle()
    }

    /// The state after `message`, and the load that it starts.
    ///
    /// The end of a load is taken as it comes. A button starts a load only
    /// while none is under way; after a failure only `Init` starts one.
    pub open spec fn update(self, message: MessageView) -> (GggUiView, Task) {
        match message {
            MessageView::Loaded(Ok(image)) => (GggUiView::Loaded { image }, Task::Idle),
            MessageView::Loaded(Err(_)) => (GggUiView::Errored, Task::Idle),
            MessageView::Next => if self is Loaded {
                (GggUiView::Loading, Task::Next)
            } else {
                (self, Task::Idle)
            },
            MessageView::Prev => if self is Loaded {
                (GggUiView::Loading, Task::Prev)
            } else {
                (self, Task::Idle)
            },
            MessageView::Init => if self is Loading {
                (self, Task::Idle)
            } else {
                (GggUiView::Loading, Task::Init)
            },
        }
    }
}

impl GggUiView {
    /// The state after all of `messages`, in their order.
    pub open spec fn after(self, messages: Seq<MessageView>) -> GggUiView
        decreases messages.len(),
    {
        if messages.len() == 0 {
            self
        } else {
            self.after(messages.drop_last()).update(messages.last()).0
        }
    }
}

/// At most one load is under way: once a message has started a load, no press
/// of a button starts another before the end of a load has come in.
pub proof fn lemma_one_load_at_a_time(
    state: GggUiView,
    first: MessageView,
    presses: Seq<MessageView>,
    last: MessageView,
)
    requires
        state.update(first).1 != Task::Idle,
        forall|i: int| 0 <= i < presses.len() ==> !(#[trigger] presses[i] is Loaded),
        !(last is Loaded),
    ensures
        state.update(first).0.after(presses) is Loading,
        state.update(first).0.after(presses).update(last).1 == Task::Idle,
    decreases presses.len(),
{
    if presses.len() > 0 {
        let earlier = presses.drop_last();
        assert forall|i: int| 0 <= i < earlier.len() implies !(#[trigger] earlier[i] is Loaded) by {
            assert(earlier[i] == presses[i]);
        }
        lemma_one_load_at_a_time(state, first, earlier, presses.last());
    }
}

/// After a failure nothing but a new load of the stored position leads on: the
/// buttons for the page before and after change nothing and start nothing.
pub proof fn lemma_only_a_new_load_recovers(presses: Seq<MessageView>, last: MessageView)
    requires
        forall|i: int|
            0 <= i < presses.len() ==> #[trigger] presses[i] is Next || presses[i] is Prev,
        last is Next || last is Prev,
    ensures
        GggUiView::Errored.after(presses) is Errored,
        GggUiView::Errored.after(presses).update(last) == (GggUiView::Errored, Task::Idle),
    decreases presses.len(),
{
    if presses.len() > 0 {
        let earlier = presses.drop_last();
        assert forall|i: int| 0 <= i < earlier.len() implies #[trigger] earlier[i] is Next
            || earlier[i] is Prev by {
            assert(earlier[i] == presses[i]);
        }
        lemma_only_a_new_load_recovers(earlier, presses.last());
    }
}

impl GggUi {
    /// The window at its start: loading the page of the stored position.
    pub fn new() -> (r: (GggUi, Task))
        ensures
            r.0 is Loading,
            r.1 == Task::Init,
    {
        (GggUi::Loading, Task::Init)
    }

    /// The title of the window.
    pub fn title(&self) -> (r: String)
        ensures
            r@ == self@.title(),
    {
        let mut r = String::from_str("GggUi - ");
        match self {
            GggUi::Loading => r.append("Loading..."),
            GggUi::Loaded { image } => r.append(image.date.to_digits().as_str()),
            GggUi::Errored => r.append("Error"),
        }
        r
    }

    /// Takes a message in: changes what the window shows, and says which load
    /// is to be started. While a load is under way no other is started.
    pub fn update(&mut self, message: Message) -> (task: Task)
        ensures
            (final(self)@, task) == old(self)@.update(message@),
            *old(self) is Loading ==> task == Task::Idle,
    {
        match message {
            Message::Loaded(Ok(image)) => {
                *self = GggUi::Loaded { image };
                Task::Idle
            },
            Message::Loaded(Err(_)) => {
                *self = GggUi::Errored;
                Task::Idle
            },
            Message::Next => match self {
                GggUi::Loaded { .. } => {
                    *self = GggUi::Loading;
                    Task::Next
                },
                _ => Task::Idle,
            },
            Message::Prev => match self {
                GggUi::Loaded { .. } => {
                    *self = GggUi::Loading;
                    Task::Prev
                },
                _ => Task::Idle,
            },
            Message::Init => match self {
                GggUi::Loading => Task::Idle,
                _ => {
                    *self = GggUi::Loading;
                    Task::Init
                },
            },
        }
    }
}

} // verus!
