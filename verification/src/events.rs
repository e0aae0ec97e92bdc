//! The presentation loop's decisions. An event and the registry give the
//! commands that the presentation is to carry out and the registry
//! afterwards; where a command moves a tab, the presentation answers with
//! the tab's page, and the registry takes that in.

use vstd::prelude::*;
use vstd::string::StringExecFns;
use vstd::utf8::encode_utf8;
use crate::fetcher::{
    bytes_to_pixbuf, favicon_payload, icon_wf, pixbuf_view, Pixbuf, PixbufView,
};
use crate::tab_manager::{
    fresh_info, info_view, Registry, TabInfo, TabInfoView, TabManager,
};
use crate::text::{
    decimal, decimal_text, hyphenated, hyphenated_text, is_random_id, new_session_id,
};

verus! {

/// What a fetch job or the address bar hands to the presentation loop.
#[derive(Debug, PartialEq, Eq)]
pub enum Event {
    /// The icon of a session arrived; no bytes where the fetch failed.
    FaviconLoaded(u128, Vec<u8>),
    /// The page of a session arrived.
    PageLoaded(u128, String),
    /// A status line that belongs to no session.
    LogMessage(String),
    /// A session is to be opened for an address.
    SessionOpenRequested(u128, String),
}

/// An `Event` as plain values.
pub enum EventView {
    FaviconLoaded(u128, Seq<u8>),
    PageLoaded(u128, Seq<char>),
    LogMessage(Seq<char>),
    SessionOpenRequested(u128, Seq<char>),
}

impl View for Event {
    type V = EventView;

    open spec fn view(&self) -> EventView {
        match *self {
            Event::FaviconLoaded(tab_id, favicon) => EventView::FaviconLoaded(tab_id, favicon@),
            Event::PageLoaded(tab_id, text) => EventView::PageLoaded(tab_id, text@),
            Event::LogMessage(text) => EventView::LogMessage(text@),
            Event::SessionOpenRequested(tab_id, url) => EventView::SessionOpenRequested(tab_id, url@),
        }
    }
}

/// What the address bar sends when an address is entered for the session
/// `tab_id`: a status line, then the request to open the session.
pub open spec fn submission(tab_id: u128, url: Seq<char>) -> Seq<EventView> {
    seq![EventView::LogMessage("Button clicked"@), EventView::SessionOpenRequested(tab_id, url)]
}

/// A list of events as plain values.
pub open spec fn events_view(events: Vec<Event>) -> Seq<EventView> {
    events@.map_values(|e: Event| e@)
}

/// The events of an address entered for a session whose identifier is
/// known.
pub fn submission_events(tab_id: u128, url: String) -> (events: Vec<Event>)
    ensures
        events_view(events) == submission(tab_id, url@),
{
    let mut events: Vec<Event> = Vec::new();
    events.push(Event::LogMessage("Button clicked".to_owned()));
    events.push(Event::SessionOpenRequested(tab_id, url));
    assert(events_view(events) =~= submission(tab_id, url@));
    events
}

/// The events of an address entered: a random identifier is drawn for the
/// session, whichever it is.
pub fn url_submitted(url: String) -> (events: Vec<Event>)
    ensures
        exists|tab_id: u128|
            is_random_id(tab_id) && events_view(events) == #[trigger] submission(tab_id, url@),
{
    let tab_id = new_session_id();
    submission_events(tab_id, url)
}

/// What stands before a tab's title.
#[derive(Debug, PartialEq, Eq)]
pub enum TabIcon {
    /// The session is loading.
    Spinner,
    /// The site's icon.
    Image(Pixbuf),
    /// Nothing: the site has no icon, or its bytes are no image.
    Blank,
}

/// A `TabIcon` as plain values.
pub enum TabIconView {
    Spinner,
    Image(PixbufView),
    Blank,
}

impl View for TabIcon {
    type V = TabIconView;

    open spec fn view(&self) -> TabIconView {
        match *self {
            TabIcon::Spinner => TabIconView::Spinner,
            TabIcon::Image(pixbuf) => TabIconView::Image(pixbuf@),
            TabIcon::Blank => TabIconView::Blank,
        }
    }
}

/// The label of a tab: an icon and a title. The presentation adds the
/// button that closes the tab.
#[derive(Debug, PartialEq, Eq)]
pub struct TabLabel {
    pub icon: TabIcon,
    pub title: String,
}

/// A `TabLabel` as plain values.
pub struct TabLabelView {
    pub icon: TabIconView,
    pub title: Seq<char>,
}

impl View for TabLabel {
    type V = TabLabelView;

    open spec fn view(&self) -> TabLabelView {
        TabLabelView { icon: self.icon@, title: self.title@ }
    }
}

/// What the presentation is asked to do.
#[derive(Debug, PartialEq, Eq)]
pub enum Command {
    /// Append a line to the status log.
    AppendLog(String),
    /// Append a page with this content and label to the notebook, then hand
    /// its page number to `tab_created`.
    CreateTab { tab_id: u128, url: String, content: String, label: TabLabel },
    /// Give the page at `position` this label.
    SetTabLabel { position: u32, label: TabLabel },
    /// Remove the page at `position`, insert one with this content and label
    /// at the same place, then hand its page number to `content_replaced`.
    ReplaceTabContent { tab_id: u128, position: u32, content: String, label: TabLabel },
    /// Start the job that fetches the site's icon.
    SpawnFaviconJob { tab_id: u128, url: String },
    /// Start the job that fetches the page.
    SpawnPageJob { tab_id: u128, url: String },
}

/// A `Command` as plain values.
pub enum CommandView {
    AppendLog(Seq<char>),
    CreateTab { tab_id: u128, url: Seq<char>, content: Seq<char>, label: TabLabelView },
    SetTabLabel { position: u32, label: TabLabelView },
    ReplaceTabContent { tab_id: u128, position: u32, content: Seq<char>, label: TabLabelView },
    SpawnFaviconJob { tab_id: u128, url: Seq<char> },
    SpawnPageJob { tab_id: u128, url: Seq<char> },
}

impl View for Command {
    type V = CommandView;

    open spec fn view(&self) -> CommandView {
        match *self {
            Command::AppendLog(line) => CommandView::AppendLog(line@),
            Command::CreateTab { tab_id, url, content, label } => CommandView::CreateTab {
                tab_id,
                url: url@,
                content: content@,
                label: label@,
            },
            Command::SetTabLabel { position, label } => CommandView::SetTabLabel {
                position,
                label: label@,
            },
            Command::ReplaceTabContent {
                tab_id,
                position,
                content,
                label,
            } => CommandView::ReplaceTabContent { tab_id, position, content: content@, label: label@ },
            Command::SpawnFaviconJob { tab_id, url } => CommandView::SpawnFaviconJob {
                tab_id,
                url: url@,
            },
            Command::SpawnPageJob { tab_id, url } => CommandView::SpawnPageJob { tab_id, url: url@ },
        }
    }
}

/// A list of commands as plain values.
pub open spec fn commands_view(commands: Vec<Command>) -> Seq<CommandView> {
    commands@.map_values(|c: Command| c@)
}

/// The icon of a tab, given what the decoder made of the session's icon
/// bytes: a spinner while the session loads; afterwards the decoded raster,
/// or nothing where there are no bytes or the decoder gave no raster.
pub open spec fn icon_of(loading: bool, favicon: Seq<u8>, decoded: Option<PixbufView>)
    -> TabIconView {
    if loading {
        TabIconView::Spinner
    } else if favicon.len() > 0 {
        match decoded {
            Some(raster) => TabIconView::Image(raster),
            None => TabIconView::Blank,
        }
    } else {
        TabIconView::Blank
    }
}

/// The label of a session's tab: its icon, and its title or three dots.
pub open spec fn label_of(loading: bool, info: TabInfoView, decoded: Option<PixbufView>)
    -> TabLabelView {
    TabLabelView {
        icon: icon_of(loading, info.favicon, decoded),
        title: match info.title {
            Some(title) => title,
            None => "..."@,
        },
    }
}

/// Makes the label of a session's tab from its record and from what the
/// decoder made of its icon bytes.
pub fn label_with_icon(loading: bool, tab_info: &TabInfo, decoded: Option<Pixbuf>) -> (label:
    TabLabel)
    ensures
        label@ == label_of(loading, tab_info@, pixbuf_view(decoded)),
{
    let icon = if loading {
        TabIcon::Spinner
    } else if tab_info.favicon.len() > 0 {
        match decoded {
            Some(pixbuf) => TabIcon::Image(pixbuf),
            None => TabIcon::Blank,
        }
    } else {
        TabIcon::Blank
    };
    let title = match &tab_info.title {
        Some(title) => title.clone(),
        None => "...".to_owned(),
    };
    TabLabel { icon, title }
}

/// Decodes the icon bytes of a record where a label would show them: not
/// while the session loads, and not where there are none.
fn decode_icon(loading: bool, tab_info: &TabInfo) -> (decoded: Option<Pixbuf>)
    ensures
        icon_wf(pixbuf_view(decoded)),
{
    if !loading && tab_info.favicon.len() > 0 {
        bytes_to_pixbuf(tab_info.favicon.clone())
    } else {
        None
    }
}

/// Makes the label of a session's tab; the icon is decoded only where it
/// is shown. Whatever the decoder gives, the label is the one that
/// `label_with_icon` makes of it: a spinner while loading, no icon for a
/// record without icon bytes, else no icon or a raster that is laid out as
/// its sizes say.
pub fn create_tab_label(loading: bool, tab_info: &TabInfo) -> (label: TabLabel)
    ensures
        exists|decoded: Option<PixbufView>|
            icon_wf(decoded) && label@ == #[trigger] label_of(loading, tab_info@, decoded),
{
    let decoded = decode_icon(loading, tab_info);
    label_with_icon(loading, tab_info, decoded)
}

/// A status line about a session: its identifier in square brackets, then
/// what is said of it.
pub open spec fn session_line(tab_id: u128, rest: Seq<char>) -> Seq<char> {
    "["@ + hyphenated(tab_id) + rest
}

fn session_line_text(tab_id: u128, rest: &str) -> (line: String)
    ensures
        line@ == session_line(tab_id, rest@),
{
    let mut line: String = "[".to_owned();
    let id_text = hyphenated_text(tab_id);
    line.append(id_text.as_str());
    line.append(rest);
    line
}

/// A count of bytes in round brackets, after what it counts.
pub open spec fn bytes_note(what: Seq<char>, count: nat) -> Seq<char> {
    what + decimal(count) + " bytes)"@
}

fn bytes_note_text(what: &str, count: usize) -> (note: String)
    ensures
        note@ == bytes_note(what@, count as nat),
{
    let mut note: String = what.to_owned();
    let count_text = decimal_text(count);
    note.append(count_text.as_str());
    note.append(" bytes)");
    note
}

/// The status line for an icon that arrived: that it failed, where there
/// are no bytes; else how many bytes it has.
pub open spec fn favicon_line(tab_id: u128, favicon: Seq<u8>) -> Seq<char> {
    if favicon.len() == 0 {
        session_line(tab_id, "] Favicon failed to load"@)
    } else {
        session_line(tab_id, bytes_note("] Favicon loaded ("@, favicon.len()))
    }
}

/// The length of a text in UTF-8, as the machine counts it.
pub open spec fn utf8_len(text: Seq<char>) -> usize {
    encode_utf8(text).len() as usize
}

/// The status line for a page that arrived: how many bytes its text has in
/// UTF-8.
pub open spec fn page_line(tab_id: u128, text: Seq<char>) -> Seq<char> {
    session_line(tab_id, bytes_note("] URL loaded ("@, utf8_len(text) as nat))
}

/// The status line for a session that is open already.
pub open spec fn already_open_line(tab_id: u128) -> Seq<char> {
    session_line(tab_id, "] Tab already open"@)
}

/// The status line for a session that was opened.
pub open spec fn opened_line(tab_id: u128, url: Seq<char>) -> Seq<char> {
    session_line(tab_id, "] Opened new tab to load: "@ + url)
}

/// What a new tab shows until its page arrives.
pub open spec fn placeholder_content(url: Seq<char>) -> Seq<char> {
    "This page contains "@ + url
}

/// A record with another icon.
pub open spec fn with_favicon(info: TabInfoView, favicon: Seq<u8>) -> TabInfoView {
    TabInfoView { favicon, ..info }
}

/// The registry after an event. Only an icon that arrived with bytes for an
/// open session changes it: the session's record takes the bytes.
pub open spec fn registry_after(registry: Registry, event: EventView) -> Registry {
    match event {
        EventView::FaviconLoaded(tab_id, favicon) => if registry.contains(tab_id) && favicon.len()
            > 0 {
            registry.update(tab_id, with_favicon(registry.tabs[tab_id], favicon))
        } else {
            registry
        },
        _ => registry,
    }
}

/// The record whose label an event shows anew: that of the event's session
/// after the event, where the event is an icon or a page for an open
/// session.
pub open spec fn shown_record(registry: Registry, event: EventView) -> Option<TabInfoView> {
    match event {
        EventView::FaviconLoaded(tab_id, _) => if registry.contains(tab_id) {
            Some(registry_after(registry, event).tabs[tab_id])
        } else {
            None
        },
        EventView::PageLoaded(tab_id, _) => if registry.contains(tab_id) {
            Some(registry.tabs[tab_id])
        } else {
            None
        },
        _ => None,
    }
}

/// The commands that an event gives rise to, given what the decoder made
/// of the icon bytes of the record that is shown.
///
/// An icon or a page for a session that is not open gives none. An icon
/// gives its status line and the tab's label anew. A page gives its status
/// line and the tab's content and label anew, at the tab's page. A status
/// line is appended. A request to open a session gives a new tab with a
/// spinner, or, where the session is open already, a status line and
/// nothing else.
pub open spec fn commands_for(registry: Registry, event: EventView, decoded: Option<PixbufView>)
    -> Seq<CommandView> {
    match event {
        EventView::FaviconLoaded(tab_id, favicon) => if registry.contains(tab_id) {
            seq![
                CommandView::AppendLog(favicon_line(tab_id, favicon)),
                CommandView::SetTabLabel {
                    position: registry.pages[tab_id],
                    label: label_of(false, registry_after(registry, event).tabs[tab_id], decoded),
                },
            ]
        } else {
            Seq::empty()
        },
        EventView::PageLoaded(tab_id, text) => if registry.contains(tab_id) {
            seq![
                CommandView::AppendLog(page_line(tab_id, text)),
                CommandView::ReplaceTabContent {
                    tab_id,
                    position: registry.pages[tab_id],
                    content: text,
                    label: label_of(false, registry.tabs[tab_id], decoded),
                },
            ]
        } else {
            Seq::empty()
        },
        EventView::LogMessage(text) => seq![CommandView::AppendLog(text)],
        EventView::SessionOpenRequested(tab_id, url) => if registry.contains(tab_id) {
            seq![CommandView::AppendLog(already_open_line(tab_id))]
        } else {
            seq![
                CommandView::CreateTab {
                    tab_id,
                    url,
                    content: placeholder_content(url),
                    label: label_of(true, fresh_info(tab_id, url), None),
                },
            ]
        },
    }
}

/// Handles one event with the icon already decoded: brings the registry up
/// to date and says what the presentation is to do. `decoded` is what the
/// decoder made of the icon bytes of the record that the event shows; it
/// is looked at only where those bytes are shown.
pub fn handle_with_icon(message: Event, manager: &mut TabManager, decoded: Option<Pixbuf>) -> (commands:
    Vec<Command>)
    requires
        old(manager).wf(),
    ensures
        final(manager).wf(),
        final(manager)@ == registry_after(old(manager)@, message@),
        commands_view(commands) == commands_for(old(manager)@, message@, pixbuf_view(decoded)),
{
    let mut commands: Vec<Command> = Vec::new();
    match message {
        Event::FaviconLoaded(tab_id, favicon) => {
            if let Some(mut tab_info) = manager.get_tab_info(tab_id) {
                if let Some(page_num) = manager.get_by_tab(tab_id) {
                    if favicon.len() == 0 {
                        commands.push(
                            Command::AppendLog(session_line_text(tab_id, "] Favicon failed to load")),
                        );
                    } else {
                        let note = bytes_note_text("] Favicon loaded (", favicon.len());
                        commands.push(Command::AppendLog(session_line_text(tab_id, note.as_str())));
                        tab_info.favicon = favicon;
                        manager.update(tab_id, tab_info.clone());
                    }
                    let label = label_with_icon(false, &tab_info, decoded);
                    commands.push(Command::SetTabLabel { position: page_num, label });
                }
            }
        },
        Event::PageLoaded(tab_id, text) => {
            if let Some(tab_info) = manager.get_tab_info(tab_id) {
                if let Some(page_num) = manager.get_by_tab(tab_id) {
                    let note = bytes_note_text("] URL loaded (", text.as_str().len());
                    commands.push(Command::AppendLog(session_line_text(tab_id, note.as_str())));
                    let label = label_with_icon(false, &tab_info, decoded);
                    commands.push(
                        Command::ReplaceTabContent {
                            tab_id,
                            position: page_num,
                            content: text,
                            label,
                        },
                    );
                }
            }
        },
        Event::LogMessage(text) => {
            commands.push(Command::AppendLog(text));
        },
        Event::SessionOpenRequested(tab_id, url) => {
            if manager.get_by_tab(tab_id).is_some() {
                commands.push(
                    Command::AppendLog(session_line_text(tab_id, "] Tab already open")),
                );
            } else {
                let tab_info = TabInfo::new(tab_id, url.clone());
                let label = label_with_icon(true, &tab_info, None);
                let mut content: String = "This page contains ".to_owned();
                content.append(url.as_str());
                commands.push(Command::CreateTab { tab_id, url, content, label });
            }
        },
    }
    assert(commands_view(commands) =~= commands_for(
        old(manager)@,
        message@,
        pixbuf_view(decoded),
    ));
    commands
}

/// The record whose label the event will show anew, as the registry has it
/// once the event is handled.
fn record_to_show(message: &Event, manager: &TabManager) -> (record: Option<TabInfo>)
    ensures
        info_view(record) == shown_record(manager@, message@),
{
    match message {
        Event::FaviconLoaded(tab_id, favicon) => match manager.get_tab_info(*tab_id) {
            Some(mut tab_info) => {
                if favicon.len() > 0 {
                    tab_info.favicon = favicon.clone();
                }
                Some(tab_info)
            },
            None => None,
        },
        Event::PageLoaded(tab_id, _) => manager.get_tab_info(*tab_id),
        _ => None,
    }
}

/// Handles one event: brings the registry up to date and says what the
/// presentation is to do. The icon bytes of the record that the event
/// shows are decoded on the way; whatever the decoder gives, the commands
/// are those that `handle_with_icon` makes of it.
pub fn handle_messages(message: Event, manager: &mut TabManager) -> (commands: Vec<Command>)
    requires
        old(manager).wf(),
    ensures
        final(manager).wf(),
        final(manager)@ == registry_after(old(manager)@, message@),
        exists|decoded: Option<PixbufView>|
            icon_wf(decoded) && commands_view(commands) == #[trigger] commands_for(
                old(manager)@,
                message@,
                decoded,
            ),
{
    let decoded = match record_to_show(&message, manager) {
        Some(tab_info) => decode_icon(false, &tab_info),
        None => None,
    };
    handle_with_icon(message, manager, decoded)
}

/// The registry after the presentation gave the page of a new tab: the
/// session stands in it with a fresh record, unless it was open already.
pub open spec fn registry_after_created(
    registry: Registry,
    tab_id: u128,
    url: Seq<char>,
    page_num: u32,
) -> Registry {
    if registry.contains(tab_id) {
        registry
    } else {
        registry.add(tab_id, page_num, fresh_info(tab_id, url))
    }
}

/// The commands that follow a new tab: a status line and the session's two
/// fetch jobs; for a session that was open already, a status line alone.
pub open spec fn commands_after_created(registry: Registry, tab_id: u128, url: Seq<char>) -> Seq<
    CommandView,
> {
    if registry.contains(tab_id) {
        seq![CommandView::AppendLog(already_open_line(tab_id))]
    } else {
        seq![
            CommandView::AppendLog(opened_line(tab_id, url)),
            CommandView::SpawnFaviconJob { tab_id, url },
            CommandView::SpawnPageJob { tab_id, url },
        ]
    }
}

/// Takes in the page that the presentation gave to a new tab: registers the
/// session and asks for its fetch jobs. Never overwrites an open session.
pub fn tab_created(manager: &mut TabManager, tab_id: u128, url: String, page_num: u32) -> (commands:
    Vec<Command>)
    requires
        old(manager).wf(),
    ensures
        final(manager).wf(),
        final(manager)@ == registry_after_created(old(manager)@, tab_id, url@, page_num),
        commands_view(commands) == commands_after_created(old(manager)@, tab_id, url@),
{
    let mut commands: Vec<Command> = Vec::new();
    if manager.get_by_tab(tab_id).is_some() {
        commands.push(Command::AppendLog(session_line_text(tab_id, "] Tab already open")));
    } else {
        manager.add(tab_id, page_num, TabInfo::new(tab_id, url.clone()));
        let mut rest: String = "] Opened new tab to load: ".to_owned();
        rest.append(url.as_str());
        commands.push(Command::AppendLog(session_line_text(tab_id, rest.as_str())));
        commands.push(Command::SpawnFaviconJob { tab_id, url: url.clone() });
        commands.push(Command::SpawnPageJob { tab_id, url });
    }
    assert(commands_view(commands) =~= commands_after_created(old(manager)@, tab_id, url@));
    commands
}

/// Takes in the page at which the presentation inserted a tab's new
/// content. A session that was closed meanwhile stays closed.
pub fn content_replaced(manager: &mut TabManager, tab_id: u128, page_num: u32)
    requires
        old(manager).wf(),
    ensures
        final(manager).wf(),
        final(manager)@ == old(manager)@.set_page(tab_id, page_num),
{
    manager.set_page(tab_id, page_num);
}

/// Every event leaves a registry in which each session has both its page
/// and its record.
pub proof fn lemma_events_keep_registry_whole(registry: Registry, event: EventView)
    requires
        registry.wf(),
    ensures
        registry_after(registry, event).wf(),
        registry_after(registry, event).tabs.dom() == registry.tabs.dom(),
        registry_after(registry, event).pages == registry.pages,
{
    assert(registry_after(registry, event).tabs.dom() =~= registry.tabs.dom());
}

/// Opening a session twice is opening it once: after the first request and
/// the presentation's answer the session is registered, and a second
/// request for it, or a second answer, changes nothing in the registry and
/// asks for a status line only: no tab, no job.
pub proof fn lemma_second_open_changes_nothing(
    registry: Registry,
    tab_id: u128,
    url: Seq<char>,
    page_num: u32,
    again_url: Seq<char>,
    again_page_num: u32,
    decoded: Option<PixbufView>,
)
    requires
        registry.wf(),
    ensures
        ({
            let opened = registry_after_created(
                registry_after(registry, EventView::SessionOpenRequested(tab_id, url)),
                tab_id,
                url,
                page_num,
            );
            let again = EventView::SessionOpenRequested(tab_id, again_url);
            &&& opened.wf()
            &&& opened.contains(tab_id)
            &&& opened.tabs.dom() == registry.tabs.dom().insert(tab_id)
            &&& registry_after(opened, again) == opened
            &&& commands_for(opened, again, decoded) == seq![
                CommandView::AppendLog(already_open_line(tab_id)),
            ]
            &&& registry_after_created(opened, tab_id, again_url, again_page_num) == opened
            &&& commands_after_created(opened, tab_id, again_url) == seq![
                CommandView::AppendLog(already_open_line(tab_id)),
            ]
        }),
{
    let opened = registry_after_created(registry, tab_id, url, page_num);
    assert(opened.tabs.dom() =~= registry.tabs.dom().insert(tab_id));
    assert(opened.pages.dom() =~= opened.tabs.dom());
}

/// A page that arrives changes no record: what was stored before it, the
/// icon too, is there after it.
pub proof fn lemma_page_keeps_records(registry: Registry, tab_id: u128, text: Seq<char>)
    ensures
        registry_after(registry, EventView::PageLoaded(tab_id, text)) == registry,
{
}

/// An icon that arrives changes nothing but the icon of its session, and
/// that only where it has bytes: address and title stay, and so does every
/// other session.
pub proof fn lemma_favicon_keeps_the_rest(registry: Registry, tab_id: u128, favicon: Seq<u8>)
    requires
        registry.contains(tab_id),
    ensures
        ({
            let after = registry_after(registry, EventView::FaviconLoaded(tab_id, favicon));
            &&& after.pages == registry.pages
            &&& after.tabs.dom() == registry.tabs.dom()
            &&& after.tabs[tab_id].tab_id == registry.tabs[tab_id].tab_id
            &&& after.tabs[tab_id].url == registry.tabs[tab_id].url
            &&& after.tabs[tab_id].title == registry.tabs[tab_id].title
            &&& after.tabs[tab_id].favicon == if favicon.len() > 0 {
                favicon
            } else {
                registry.tabs[tab_id].favicon
            }
            &&& forall|other: u128|
                other != tab_id && registry.contains(other) ==> #[trigger] after.tabs[other]
                    == registry.tabs[other]
        }),
{
    let after = registry_after(registry, EventView::FaviconLoaded(tab_id, favicon));
    assert(after.tabs.dom() =~= registry.tabs.dom());
}

/// The icon and the page of a session may arrive in either order: the
/// registry is the same afterwards, and whichever comes second is shown
/// with what the first one brought. Both show the same record, the one
/// with the icon's bytes, so that the page's tab carries the label that the
/// icon gave wherever the decoder makes the same of the same record, and
/// the icon's label does not depend on whether the page came before it.
pub proof fn lemma_favicon_and_page_in_either_order(
    registry: Registry,
    tab_id: u128,
    favicon: Seq<u8>,
    text: Seq<char>,
    decoded: Option<PixbufView>,
)
    requires
        registry.contains(tab_id),
    ensures
        ({
            let icon = EventView::FaviconLoaded(tab_id, favicon);
            let page = EventView::PageLoaded(tab_id, text);
            let icon_first = registry_after(registry_after(registry, icon), page);
            let page_first = registry_after(registry_after(registry, page), icon);
            &&& icon_first == page_first
            &&& icon_first == registry_after(registry, icon)
            &&& shown_record(registry_after(registry, icon), page) == shown_record(registry, icon)
            &&& shown_record(registry_after(registry, page), icon) == shown_record(registry, icon)
            &&& commands_for(registry_after(registry, page), icon, decoded) == commands_for(
                registry,
                icon,
                decoded,
            )
            &&& commands_for(registry_after(registry, icon), page, decoded)[1] == (
            CommandView::ReplaceTabContent {
                tab_id,
                position: registry.pages[tab_id],
                content: text,
                label: label_of(false, registry_after(registry, icon).tabs[tab_id], decoded),
            })
        }),
{
    let icon = EventView::FaviconLoaded(tab_id, favicon);
    assert(registry_after(registry, icon).tabs.dom() =~= registry.tabs.dom());
}

/// An icon or a page for a session that is not open is dropped: the
/// registry stays as it is and the presentation is asked for nothing.
pub proof fn lemma_stale_event_is_dropped(
    registry: Registry,
    event: EventView,
    decoded: Option<PixbufView>,
)
    requires
        match event {
            EventView::FaviconLoaded(tab_id, _) => !registry.contains(tab_id),
            EventView::PageLoaded(tab_id, _) => !registry.contains(tab_id),
            _ => false,
        },
    ensures
        registry_after(registry, event) == registry,
        commands_for(registry, event, decoded) == Seq::<CommandView>::empty(),
        shown_record(registry, event) is None,
{
}

/// The session that an event is about, if it is about one.
pub open spec fn session_of(event: EventView) -> Option<u128> {
    match event {
        EventView::FaviconLoaded(tab_id, _) => Some(tab_id),
        EventView::PageLoaded(tab_id, _) => Some(tab_id),
        EventView::LogMessage(_) => None,
        EventView::SessionOpenRequested(tab_id, _) => Some(tab_id),
    }
}

/// Events that are not about the same session may arrive in either order:
/// the registry is the same afterwards, and each event asks the
/// presentation for the same, whether the other came before it or not.
pub proof fn lemma_events_of_other_sessions_commute(
    registry: Registry,
    first: EventView,
    second: EventView,
    decoded: Option<PixbufView>,
)
    requires
        session_of(first) != session_of(second) || session_of(first) is None,
    ensures
        registry_after(registry_after(registry, first), second) == registry_after(
            registry_after(registry, second),
            first,
        ),
        shown_record(registry_after(registry, first), second) == shown_record(registry, second),
        shown_record(registry_after(registry, second), first) == shown_record(registry, first),
        commands_for(registry_after(registry, first), second, decoded) == commands_for(
            registry,
            second,
            decoded,
        ),
        commands_for(registry_after(registry, second), first, decoded) == commands_for(
            registry,
            first,
            decoded,
        ),
{
    let after_first = registry_after(registry, first);
    let after_second = registry_after(registry, second);
    assert(after_first.tabs.dom() =~= registry.tabs.dom());
    assert(after_second.tabs.dom() =~= registry.tabs.dom());
    assert(registry_after(after_first, second).tabs =~= registry_after(after_second, first).tabs);
}

/// An icon job whose fetch failed and one whose fetch gave no bytes are one
/// to the loop: they end with the same event. For an open session that
/// event leaves the registry as it is, reports the failure, and shows the
/// tab with the icon it had: none, where none was stored.
pub proof fn lemma_empty_favicon_is_a_failed_fetch(
    registry: Registry,
    tab_id: u128,
    decoded: Option<PixbufView>,
)
    ensures
        ({
            let failed = EventView::FaviconLoaded(tab_id, favicon_payload(None));
            let empty = EventView::FaviconLoaded(tab_id, favicon_payload(Some(Seq::empty())));
            &&& failed == empty
            &&& registry_after(registry, empty) == registry
            &&& registry.contains(tab_id) ==> commands_for(registry, empty, decoded) == seq![
                CommandView::AppendLog(session_line(tab_id, "] Favicon failed to load"@)),
                CommandView::SetTabLabel {
                    position: registry.pages[tab_id],
                    label: label_of(false, registry.tabs[tab_id], decoded),
                },
            ]
            &&& registry.contains(tab_id) && registry.tabs[tab_id].favicon.len() == 0 ==> label_of(
                false,
                registry.tabs[tab_id],
                decoded,
            ).icon == TabIconView::Blank
        }),
{
}

/// Closing a session makes every later icon or page for it stale.
pub proof fn lemma_closed_session_is_absent(registry: Registry, tab_id: u128)
    requires
        registry.wf(),
    ensures
        registry.remove(tab_id).wf(),
        !registry.remove(tab_id).contains(tab_id),
        !registry.remove(tab_id).pages.contains_key(tab_id),
{
    assert(registry.remove(tab_id).pages.dom() =~= registry.remove(tab_id).tabs.dom());
}

} // verus!
