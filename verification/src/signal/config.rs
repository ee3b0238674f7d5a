//! The bot's account and its files, and how everything is put together.
use crate::paths::{
    config_dir, expands_to, expansion_of, joined, push_below, pushes_to, starts_at_home,
};
use crate::signal::dispatch::Signal;
use crate::signal::{message_channel, queue_limit, SignalMsg};
use crate::text::{concat, same_text};
use vstd::prelude::*;

verus! {

/// How many messages can wait in either direction between the network and the handlers.
pub const QUEUE_LIMIT: usize = 1024;

/// The servers to connect to.
#[derive(Debug, PartialEq, Eq, Clone, Copy, Structural)]
pub enum SignalServers {
    Staging,
    Production,
}

/// A device of an account, where its data is kept, and the handlers of its messages.
pub struct SignalConfig<H> {
    pub device_name: String,
    /// The directory below which data is kept. It has to exist before the data is opened.
    pub base_dir: String,
    /// The data of this device.
    pub db_path: String,
    /// What separates the components of a path on this system.
    pub separator: char,
    pub servers: SignalServers,
    pub handlers: Vec<H>,
}

/// What is needed to link a device to an account.
#[derive(Debug, PartialEq, Eq)]
pub struct LinkRequest {
    pub db_path: String,
    pub servers: SignalServers,
    pub device_name: String,
}

/// What is to be done while a device is being linked.
#[derive(Debug, PartialEq, Eq)]
pub enum LinkAction {
    /// Show a link as a code that a phone can read.
    ShowCode(String),
    /// Log an error.
    LogError(String),
}

#[verifier::ext_equal]
pub enum LinkActionView {
    ShowCode(Seq<char>),
    LogError(Seq<char>),
}

impl View for LinkAction {
    type V = LinkActionView;

    open spec fn view(&self) -> LinkActionView {
        match self {
            LinkAction::ShowCode(url) => LinkActionView::ShowCode(url@),
            LinkAction::LogError(text) => LinkActionView::LogError(text@),
        }
    }
}

/// What is needed to run.
pub struct Running<H> {
    /// The dispatching of messages to the handlers.
    pub signal: Signal<H>,
    /// Where arrived messages are put.
    pub in_chan_tx: flume::Sender<SignalMsg>,
    /// Where orders to the network are taken from.
    pub out_chan_rx: flume::Receiver<SignalMsg>,
    /// The data of the device.
    pub db_path: String,
    /// Messages from before this time are passed over.
    pub replay_timestamp: u64,
}

impl<H> SignalConfig<H> {
    /// A device with its data below `base_dir`, and no handlers.
    pub fn in_dir(base_dir: String, device_name: &str) -> (config: Self)
        ensures
            config.device_name@ == device_name@,
            config.base_dir == base_dir,
            pushes_to(base_dir@, device_name, (config.db_path, config.separator)),
            config.separator == '/' ==> config.db_path@ == joined(base_dir@, device_name@),
            config.servers == SignalServers::Production,
            config.handlers@ == Seq::<H>::empty(),
    {
        let (db_path, separator) = push_below(base_dir.as_str(), device_name);
        Self {
            device_name: device_name.to_owned(),
            base_dir,
            db_path,
            separator,
            servers: SignalServers::Production,
            handlers: Vec::new(),
        }
    }

    /// A device with its data in the bot's directory, and no handlers.
    pub fn new(device_name: &str) -> (config: Self)
        ensures
            config.device_name@ == device_name@,
            expansion_of("~/.config/sigbot", config.base_dir),
            expands_to("~/.config/sigbot"@, config.base_dir@),
            pushes_to(config.base_dir@, device_name, (config.db_path, config.separator)),
            config.separator == '/' ==> config.db_path@ == joined(
                config.base_dir@,
                device_name@,
            ),
            config.servers == SignalServers::Production,
            config.handlers@ == Seq::<H>::empty(),
    {
        Self::in_dir(config_dir(), device_name)
    }

    /// Adds a handler after those that are already there.
    pub fn register_handler(self, handler: H) -> (config: Self)
        ensures
            config.handlers@ == self.handlers@.push(handler),
            config.device_name == self.device_name,
            config.base_dir == self.base_dir,
            config.db_path == self.db_path,
            config.separator == self.separator,
            config.servers == self.servers,
    {
        let mut config = self;
        config.handlers.push(handler);
        config
    }

    /// What is needed to link the device to an account.
    pub fn link(&self) -> (request: LinkRequest)
        ensures
            request.db_path@ == self.db_path@,
            request.servers == self.servers,
            request.device_name@ == self.device_name@,
    {
        LinkRequest {
            db_path: self.db_path.clone(),
            servers: self.servers,
            device_name: self.device_name.clone(),
        }
    }

    /// Connects the handlers to the network with two channels, one in each direction.
    pub fn run(self, replay_timestamp: u64) -> (running: Running<H>)
        ensures
            queue_limit(running.in_chan_tx, running.signal.in_chan_rx) == Some(QUEUE_LIMIT),
            queue_limit(running.signal.out_chan_tx, running.out_chan_rx) == Some(QUEUE_LIMIT),
            running.signal.handlers == self.handlers,
            running.db_path == self.db_path,
            running.replay_timestamp == replay_timestamp,
    {
        let (in_chan_tx, in_chan_rx) = message_channel(QUEUE_LIMIT);
        let (out_chan_tx, out_chan_rx) = message_channel(QUEUE_LIMIT);
        Running {
            signal: Signal { out_chan_tx, in_chan_rx, handlers: self.handlers },
            in_chan_tx,
            out_chan_rx,
            db_path: self.db_path,
            replay_timestamp,
        }
    }
}

/// What is to be done with the link that a phone has to open, or with the reason why there is
/// none.
pub fn show_link(provisioned: Result<String, String>) -> (action: LinkAction)
    ensures
        match provisioned {
            Ok(url) => action@ == LinkActionView::ShowCode(url@),
            Err(reason) => action@ == LinkActionView::LogError(
                "Error linking device: "@ + reason@,
            ),
        },
{
    match provisioned {
        Ok(url) => LinkAction::ShowCode(url),
        Err(reason) => LinkAction::LogError(concat("Error linking device: ", reason.as_str())),
    }
}

/// What the program can be asked to do.
#[derive(Debug, PartialEq, Eq, Clone, Copy, Structural)]
pub enum Task {
    Run,
    Link,
}

/// What a subcommand of the program asks for, if it asks for anything.
pub open spec fn task_of(subcommand: Option<Seq<char>>) -> Option<Task> {
    match subcommand {
        Some(name) => if name == "run"@ {
            Some(Task::Run)
        } else if name == "link"@ {
            Some(Task::Link)
        } else {
            None
        },
        None => None,
    }
}

/// What a subcommand of the program asks for, if it asks for anything.
pub fn select_task(subcommand: Option<&str>) -> (task: Option<Task>)
    ensures
        task == task_of(crate::text::option_view(subcommand)),
{
    match subcommand {
        Some(name) => if same_text(name, "run") {
            Some(Task::Run)
        } else if same_text(name, "link") {
            Some(Task::Link)
        } else {
            None
        },
        None => None,
    }
}

/// Devices with different names keep different data, unless a name is an absolute path, which
/// stands for itself wherever the bot's directory is.
pub proof fn law_devices_have_their_own_data(base: Seq<char>, a: Seq<char>, b: Seq<char>)
    requires
        a != b,
        a.len() > 0 ==> a[0] != '/',
        b.len() > 0 ==> b[0] != '/',
    ensures
        joined(base, a) != joined(base, b),
{
    let below = if base.len() == 0 || base.last() == '/' {
        base
    } else {
        base.push('/')
    };
    assert(joined(base, a).skip(below.len() as int) =~= a);
    assert(joined(base, b).skip(below.len() as int) =~= b);
}

/// The data of a device is in the bot's directory below the home directory, under the device's
/// name, wherever the home directory is.
pub proof fn law_data_is_below_the_home_directory(home: Seq<char>, name: Seq<char>)
    requires
        name.len() > 0 ==> name[0] != '/',
    ensures
        expands_to("~/.config/sigbot"@, home + "/.config/sigbot"@),
        joined(home + "/.config/sigbot"@, name) == home + "/.config/sigbot/"@ + name,
{
    reveal_strlit("~/.config/sigbot");
    reveal_strlit("/.config/sigbot");
    reveal_strlit("/.config/sigbot/");
    let path = "~/.config/sigbot"@;
    assert(path.skip(1) =~= "/.config/sigbot"@);
    assert(starts_at_home(path));
    assert(home + "/.config/sigbot"@ == home + path.skip(1));
    assert("/.config/sigbot"@.push('/') =~= "/.config/sigbot/"@);
    assert((home + "/.config/sigbot"@).push('/') =~= home + "/.config/sigbot/"@);
}

/// A device's data is under its name in the given directory, one slash below it, on systems that
/// separate the components of a path by slashes. A new device is like that in the bot's own
/// directory. Both belong to the production servers and have no handlers.
pub proof fn law_where_a_device_keeps_its_data<H>(
    base_dir: String,
    device_name: &str,
    placed: SignalConfig<H>,
    fresh: SignalConfig<H>,
)
    requires
        call_ensures(SignalConfig::<H>::in_dir, (base_dir, device_name), placed),
        call_ensures(SignalConfig::<H>::new, (device_name,), fresh),
    ensures
        placed.base_dir@ == base_dir@,
        placed.device_name@ == device_name@ && fresh.device_name@ == device_name@,
        placed.servers == SignalServers::Production && fresh.servers == SignalServers::Production,
        placed.handlers@.len() == 0 && fresh.handlers@.len() == 0,
        placed.separator == '/' && base_dir@.len() > 0 && base_dir@.last() != '/' && !(
        device_name@.len() > 0 && device_name@[0] == '/') ==> placed.db_path@ == base_dir@
            + seq!['/'] + device_name@,
        placed.separator == '/' && device_name@.len() > 0 && device_name@[0] == '/'
            ==> placed.db_path@ == device_name@,
        fresh.base_dir@ == "~/.config/sigbot"@ || exists|home: Seq<char>|
            fresh.base_dir@ == #[trigger] (home + "/.config/sigbot"@),
        fresh.separator == '/' && !(device_name@.len() > 0 && device_name@[0] == '/')
            ==> fresh.db_path@ == fresh.base_dir@ + seq!['/'] + device_name@,
{
    reveal_strlit("~/.config/sigbot");
    reveal_strlit("/.config/sigbot");
    assert("~/.config/sigbot"@.skip(1) =~= "/.config/sigbot"@);
    assert(base_dir@.push('/') =~= base_dir@ + seq!['/']);
    assert(fresh.base_dir@.push('/') =~= fresh.base_dir@ + seq!['/']);
    assert(fresh.base_dir@.len() > 0 && fresh.base_dir@.last() == 't') by {
        if fresh.base_dir@ != "~/.config/sigbot"@ {
            let home = choose|home: Seq<char>|
                fresh.base_dir@ == #[trigger] (home + "~/.config/sigbot"@.skip(1));
            assert((home + "~/.config/sigbot"@.skip(1)).last() == 't');
        }
    }
}

/// What is needed to link a device is the device's own, and a link is shown as it is; a failure is
/// told with its reason.
pub proof fn law_linking_is_for_the_device<H>(
    config: SignalConfig<H>,
    request: LinkRequest,
    url: String,
    shown: LinkAction,
    reason: String,
    told: LinkAction,
)
    requires
        call_ensures(SignalConfig::<H>::link, (&config,), request),
        call_ensures(show_link, (Ok::<String, String>(url),), shown),
        call_ensures(show_link, (Err::<String, String>(reason),), told),
    ensures
        request.db_path@ == config.db_path@,
        request.device_name@ == config.device_name@,
        request.servers == config.servers,
        shown matches LinkAction::ShowCode(code) && code@ == url@,
        told matches LinkAction::LogError(text) && text@ == "Error linking device: "@ + reason@,
{
}

} // verus!
