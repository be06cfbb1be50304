//! The connection that is kept, the settings of the system that go with it, and the commands
//! that show it and end it.

use crate::platform::Platform;
use crate::text::{clone_opt, lemma_texts_push, opt_text, texts, unit_outcome};
use vstd::prelude::*;
use vstd::string::*;

verus! {

/// A value in the registry.
pub enum RegistryValue {
    Number(u32),
    Text(String),
}

/// A value to be written to the registry.
pub struct RegistryWrite {
    pub name: String,
    pub value: RegistryValue,
}

/// A value in the registry, as a mathematical value.
pub enum RegistryModel {
    Number(u32),
    Text(Seq<char>),
}

impl View for RegistryWrite {
    type V = (Seq<char>, RegistryModel);

    open spec fn view(&self) -> (Seq<char>, RegistryModel) {
        (
            self.name@,
            match self.value {
                RegistryValue::Number(number) => RegistryModel::Number(number),
                RegistryValue::Text(text) => RegistryModel::Text(text@),
            },
        )
    }
}

/// The views of values to be written.
pub open spec fn write_models(writes: Seq<RegistryWrite>) -> Seq<(Seq<char>, RegistryModel)> {
    writes.map_values(|write: RegistryWrite| write@)
}

/// What is written to the registry to set the proxy of the system.
pub open spec fn proxy_writes(enable: bool, proxy_server: Seq<char>, bypass_list: Seq<char>) -> Seq<
    (Seq<char>, RegistryModel),
> {
    seq![
        (
            "ProxyEnable"@,
            RegistryModel::Number(
                if enable {
                    1
                } else {
                    0
                },
            ),
        ),
        ("ProxyServer"@, RegistryModel::Text(proxy_server)),
        ("ProxyOverride"@, RegistryModel::Text(bypass_list)),
    ]
}

/// What is written to the registry to send all traffic through the tunnel, or to stop that.
pub open spec fn tun_writes(enable: bool) -> Seq<(Seq<char>, RegistryModel)> {
    if enable {
        proxy_writes(false, ""@, ""@)
    } else {
        Seq::empty()
    }
}

/// What to write to the registry to set the proxy of the system.
pub fn set_system_proxy(enable: bool, proxy_server: &str, bypass_list: &str) -> (writes: Vec<
    RegistryWrite,
>)
    ensures
        write_models(writes@) == proxy_writes(enable, proxy_server@, bypass_list@),
{
    let number: u32 = if enable {
        1
    } else {
        0
    };
    let mut writes: Vec<RegistryWrite> = Vec::new();
    writes.push(
        RegistryWrite { name: "ProxyEnable".to_owned(), value: RegistryValue::Number(number) },
    );
    writes.push(
        RegistryWrite {
            name: "ProxyServer".to_owned(),
            value: RegistryValue::Text(proxy_server.to_owned()),
        },
    );
    writes.push(
        RegistryWrite {
            name: "ProxyOverride".to_owned(),
            value: RegistryValue::Text(bypass_list.to_owned()),
        },
    );
    assert(write_models(writes@) =~= proxy_writes(enable, proxy_server@, bypass_list@));
    writes
}

/// What to write to the registry to send all traffic through the tunnel, or to stop that.
pub fn set_tun_route(enable: bool) -> (writes: Vec<RegistryWrite>)
    ensures
        write_models(writes@) == tun_writes(enable),
{
    if enable {
        set_system_proxy(false, "", "")
    } else {
        let none: Vec<RegistryWrite> = Vec::new();
        assert(write_models(none@) =~= Seq::empty());
        none
    }
}

/// What to write to the registry to stop sending all traffic through the tunnel.
pub fn remove_tun_route() -> (writes: Vec<RegistryWrite>)
    ensures
        write_models(writes@) == tun_writes(false),
{
    set_tun_route(false)
}

/// The connection that is kept.
pub struct XrayManager {
    /// Tells whether there is an Xray process.
    pub child: bool,
    /// Where the configuration of the process is kept.
    pub config_path: Option<String>,
    /// Where the log of the process is kept.
    pub log_path: Option<String>,
    /// The URI of the server.
    pub connected_uri: Option<String>,
    /// Tells whether all traffic goes through the server.
    pub tunnel_mode: bool,
}

/// The connection that is kept, as mathematical values.
pub struct ManagerModel {
    pub child: bool,
    pub config_path: Option<Seq<char>>,
    pub log_path: Option<Seq<char>>,
    pub connected_uri: Option<Seq<char>>,
    pub tunnel_mode: bool,
}

impl View for XrayManager {
    type V = ManagerModel;

    open spec fn view(&self) -> ManagerModel {
        ManagerModel {
            child: self.child,
            config_path: opt_text(self.config_path),
            log_path: opt_text(self.log_path),
            connected_uri: opt_text(self.connected_uri),
            tunnel_mode: self.tunnel_mode,
        }
    }
}

/// No connection.
pub open spec fn disconnected() -> ManagerModel {
    ManagerModel {
        child: false,
        config_path: None,
        log_path: None,
        connected_uri: None,
        tunnel_mode: false,
    }
}

/// What is shown of the connection.
pub struct VpnStatus {
    pub connected: bool,
    pub connected_uri: Option<String>,
    pub tunnel_mode: bool,
}

/// What is shown of the connection, as mathematical values.
pub struct StatusModel {
    pub connected: bool,
    pub connected_uri: Option<Seq<char>>,
    pub tunnel_mode: bool,
}

impl View for VpnStatus {
    type V = StatusModel;

    open spec fn view(&self) -> StatusModel {
        StatusModel {
            connected: self.connected,
            connected_uri: opt_text(self.connected_uri),
            tunnel_mode: self.tunnel_mode,
        }
    }
}

/// What is left to do once a connection was given up.
pub struct StopPlan {
    /// Kill the Xray process.
    pub kill_child: bool,
    /// The files to remove.
    pub remove_files: Vec<String>,
    /// What to write to the registry.
    pub registry: Vec<RegistryWrite>,
}

/// What is left to do once a connection was given up, as mathematical values.
pub struct StopModel {
    pub kill_child: bool,
    pub remove_files: Seq<Seq<char>>,
    pub registry: Seq<(Seq<char>, RegistryModel)>,
}

impl View for StopPlan {
    type V = StopModel;

    open spec fn view(&self) -> StopModel {
        StopModel {
            kill_child: self.kill_child,
            remove_files: texts(self.remove_files@),
            registry: write_models(self.registry@),
        }
    }
}

/// The list of a text that may be missing.
pub open spec fn listed(item: Option<Seq<char>>) -> Seq<Seq<char>> {
    match item {
        Some(text) => seq![text],
        None => Seq::empty(),
    }
}

/// The connection once it was given up.
pub open spec fn given_up(manager: ManagerModel, platform: Platform) -> ManagerModel {
    match platform {
        Platform::Windows => disconnected(),
        Platform::Android => ManagerModel { connected_uri: None, tunnel_mode: false, ..manager },
    }
}

/// What is left to do once the connection was given up.
pub open spec fn stop_plan(manager: ManagerModel, platform: Platform) -> StopModel {
    match platform {
        Platform::Windows => StopModel {
            kill_child: manager.child,
            remove_files: listed(manager.config_path) + listed(manager.log_path),
            registry: proxy_writes(false, ""@, ""@) + tun_writes(false),
        },
        Platform::Android => StopModel {
            kill_child: false,
            remove_files: Seq::empty(),
            registry: Seq::empty(),
        },
    }
}

/// What is shown of the connection.
pub open spec fn status_of(manager: ManagerModel, platform: Platform) -> StatusModel {
    StatusModel {
        connected: match platform {
            Platform::Windows => manager.child,
            Platform::Android => manager.connected_uri is Some,
        },
        connected_uri: manager.connected_uri,
        tunnel_mode: manager.tunnel_mode,
    }
}

/// Moves a text that may be missing to the end of a list.
fn move_to(list: &mut Vec<String>, item: Option<String>)
    ensures
        texts(final(list)@) == texts(old(list)@) + listed(opt_text(item)),
{
    match item {
        Some(text) => {
            proof {
                lemma_texts_push(list@, text);
            }
            list.push(text);
            assert(texts(list@) =~= texts(old(list)@) + listed(opt_text(item)));
        },
        None => {
            assert(texts(list@) =~= texts(old(list)@) + listed(opt_text(item)));
        },
    }
}

impl Default for XrayManager {
    fn default() -> (manager: Self)
        ensures
            manager@ == disconnected(),
    {
        XrayManager {
            child: false,
            config_path: None,
            log_path: None,
            connected_uri: None,
            tunnel_mode: false,
        }
    }
}

impl XrayManager {
    /// Gives the connection up.
    pub fn stop(&mut self, platform: Platform) -> (plan: StopPlan)
        ensures
            final(self)@ == given_up(old(self)@, platform),
            plan@ == stop_plan(old(self)@, platform),
    {
        self.connected_uri = None;
        self.tunnel_mode = false;
        let mut remove_files: Vec<String> = Vec::new();
        assert(texts(remove_files@) =~= Seq::empty());
        match platform {
            Platform::Windows => {
                let kill_child = self.child;
                self.child = false;
                move_to(&mut remove_files, self.config_path.take());
                move_to(&mut remove_files, self.log_path.take());
                let mut registry = set_system_proxy(false, "", "");
                let mut route = remove_tun_route();
                let ghost written = write_models(registry@) + write_models(route@);
                registry.append(&mut route);
                assert(write_models(registry@) =~= written);
                let plan = StopPlan { kill_child, remove_files, registry };
                assert(plan@.remove_files =~= stop_plan(old(self)@, platform).remove_files);
                plan
            },
            Platform::Android => {
                let registry: Vec<RegistryWrite> = Vec::new();
                assert(write_models(registry@) =~= Seq::empty());
                StopPlan { kill_child: false, remove_files, registry }
            },
        }
    }

    /// What is shown of the connection.
    pub fn status(&self, platform: Platform) -> (status: VpnStatus)
        ensures
            status@ == status_of(self@, platform),
    {
        VpnStatus {
            connected: match platform {
                Platform::Windows => self.child,
                Platform::Android => self.connected_uri.is_some(),
            },
            connected_uri: clone_opt(&self.connected_uri),
            tunnel_mode: self.tunnel_mode,
        }
    }
}

/// The connection as it is known once the VPN service was asked whether it runs.
pub open spec fn observed(
    manager: ManagerModel,
    platform: Platform,
    running: Result<bool, Seq<char>>,
) -> ManagerModel {
    if platform == Platform::Android && running != Ok::<bool, Seq<char>>(true) {
        given_up(manager, platform)
    } else {
        manager
    }
}

/// The view of an answer or of the message of an error.
pub open spec fn flag_outcome(result: Result<bool, String>) -> Result<bool, Seq<char>> {
    match result {
        Ok(flag) => Ok(flag),
        Err(error) => Err(error@),
    }
}

/// The command to show the connection. `running` is what the VPN service says of itself; it
/// matters on Android only, where there is no connection without the service.
pub fn vpn_status(manager: &mut XrayManager, platform: Platform, running: Result<bool, String>) -> (
status: VpnStatus)
    ensures
        final(manager)@ == observed(old(manager)@, platform, flag_outcome(running)),
        status@ == status_of(final(manager)@, platform),
{
    match platform {
        Platform::Android => {
            let runs = match running {
                Ok(runs) => runs,
                Err(_) => false,
            };
            if !runs {
                manager.connected_uri = None;
                manager.tunnel_mode = false;
            }
        },
        Platform::Windows => {},
    }
    manager.status(platform)
}

/// The view of a plan or of the message of an error.
pub open spec fn plan_outcome(result: Result<StopPlan, String>) -> Result<StopModel, Seq<char>> {
    match result {
        Ok(plan) => Ok(plan@),
        Err(error) => Err(error@),
    }
}

/// The command to end the connection. `service` is what came of the call that tells the VPN
/// service to end; it matters on Android only, where an error leaves the connection as it is.
pub fn disconnect_vpn(
    manager: &mut XrayManager,
    platform: Platform,
    service: Result<(), String>,
) -> (plan: Result<StopPlan, String>)
    ensures
        match (platform, unit_outcome(service)) {
            (Platform::Android, Err(error)) => {
                &&& final(manager)@ == old(manager)@
                &&& plan_outcome(plan) == Err::<StopModel, Seq<char>>(error)
            },
            _ => {
                &&& final(manager)@ == given_up(old(manager)@, platform)
                &&& plan_outcome(plan) == Ok::<StopModel, Seq<char>>(
                    stop_plan(old(manager)@, platform),
                )
            },
        },
{
    match platform {
        Platform::Android => match service {
            Err(error) => Err(error),
            Ok(_) => Ok(manager.stop(platform)),
        },
        Platform::Windows => Ok(manager.stop(platform)),
    }
}

} // verus!
