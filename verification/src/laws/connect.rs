//! What holds of the connection, of the commands that make and end it, and of what is shown.

use crate::config::stream_tree;
use crate::connect::{
    connect_begin, connect_config, connect_step, effective_mode, established, expects, ConnectActionModel,
    ConnectEventModel, ConnectModel, ConnectPhase, ConnectStep, RUNNING_POLLS,
};
use crate::json::{pretty_text, JsonTree};
use crate::laws::config::{
    law_config_leads_to_server, leads_to, offers_interface, offers_port, outbound_server,
    outbound_stream, outbound_user,
};
use crate::laws::uri::law_server_is_that_of_the_uri;
use crate::manager::{
    disconnected, given_up, observed, proxy_writes, status_of, stop_plan, tun_writes,
    ManagerModel, RegistryModel, StatusModel,
};
use crate::platform::Platform;
use crate::text::{decimal, trimmed};
use crate::uri::{parsed_url, vless_of, VlessModel};
use crate::xray_log::log_summary;
use vstd::prelude::*;

verus! {

/// A connection that was given up is shown as such; giving it up again changes nothing and
/// leaves no process to kill and no file to remove.
pub proof fn law_stop_is_idempotent(manager: ManagerModel, platform: Platform)
    ensures
        given_up(given_up(manager, platform), platform) == given_up(manager, platform),
        status_of(given_up(manager, platform), platform) == (StatusModel {
            connected: false,
            connected_uri: None,
            tunnel_mode: false,
        }),
        !stop_plan(given_up(manager, platform), platform).kill_child,
        stop_plan(given_up(manager, platform), platform).remove_files.len() == 0,
{
}

/// On Windows, giving up a connection always turns the proxy of the system off.
pub proof fn law_stop_turns_proxy_off(manager: ManagerModel)
    ensures
        stop_plan(manager, Platform::Windows).registry == proxy_writes(false, ""@, ""@),
{
    assert(stop_plan(manager, Platform::Windows).registry =~= proxy_writes(false, ""@, ""@));
}

/// On Android, nothing is shown as connected unless the VPN service says that it runs; on
/// Windows, what the service says makes no difference.
pub proof fn law_status_follows_service(
    manager: ManagerModel,
    platform: Platform,
    running: Result<bool, Seq<char>>,
)
    ensures
        status_of(observed(manager, platform, running), platform).connected && platform
            == Platform::Android ==> running == Ok::<bool, Seq<char>>(true),
        platform == Platform::Windows || running == Ok::<bool, Seq<char>>(true) ==> observed(
            manager,
            platform,
            running,
        ) == manager,
{
}

/// How many steps a command to connect takes at most from a phase on.
pub open spec fn connect_steps_left(phase: ConnectPhase) -> int {
    match phase {
        ConnectPhase::Preparing => 5,
        ConnectPhase::Spawning => 4,
        ConnectPhase::Settling => 3,
        ConnectPhase::Checking => 2,
        ConnectPhase::Routing => 1,
        ConnectPhase::Calling => 2 * RUNNING_POLLS + 1,
        ConnectPhase::Polling(polls) => 2 * (RUNNING_POLLS - polls),
        ConnectPhase::Pausing(polls) => 2 * (RUNNING_POLLS - polls) + 1,
        ConnectPhase::Over => 0,
    }
}

/// A command to connect comes to its end: each step leaves fewer steps to take.
pub proof fn law_connect_comes_to_its_end(
    task: ConnectModel,
    manager: ManagerModel,
    event: ConnectEventModel,
)
    requires
        task.well_formed(),
        expects(task.phase, event),
    ensures
        0 <= connect_steps_left(connect_step(task, manager, event).task.phase)
            < connect_steps_left(task.phase),
        connect_step(task, manager, event).task.well_formed(),
{
}

/// A command to connect, and the connection, after what happened.
pub open spec fn connect_run(
    task: ConnectModel,
    manager: ManagerModel,
    events: Seq<ConnectEventModel>,
) -> (ConnectModel, ManagerModel)
    decreases events.len(),
{
    if events.len() == 0 {
        (task, manager)
    } else {
        let (before, kept) = connect_run(task, manager, events.drop_last());
        let step = connect_step(before, kept, events.last());
        (step.task, step.manager)
    }
}

/// Tells whether it can happen so: each event is one that the command waits for.
pub open spec fn all_expected(
    task: ConnectModel,
    manager: ManagerModel,
    events: Seq<ConnectEventModel>,
) -> bool
    decreases events.len(),
{
    events.len() > 0 ==> {
        &&& all_expected(task, manager, events.drop_last())
        &&& expects(connect_run(task, manager, events.drop_last()).0.phase, events.last())
    }
}

/// The last step of a command to connect.
pub open spec fn last_step(
    task: ConnectModel,
    manager: ManagerModel,
    events: Seq<ConnectEventModel>,
) -> ConnectStep
    recommends
        events.len() > 0,
{
    let (before, kept) = connect_run(task, manager, events.drop_last());
    connect_step(before, kept, events.last())
}

/// What holds throughout a command to connect.
proof fn lemma_connect_run(
    task: ConnectModel,
    manager: ManagerModel,
    events: Seq<ConnectEventModel>,
)
    requires
        task.well_formed(),
        task.phase == ConnectPhase::Preparing || task.phase == ConnectPhase::Calling,
        all_expected(task, manager, events),
    ensures
        ({
            let (after, kept) = connect_run(task, manager, events);
            &&& after.well_formed()
            &&& after.uri == task.uri
            &&& after.tunnel_mode == task.tunnel_mode
            &&& after.platform == task.platform
            &&& after.phase == ConnectPhase::Settling || after.phase == ConnectPhase::Checking
                || after.phase == ConnectPhase::Routing ==> kept == established(after)
            &&& after.phase == ConnectPhase::Preparing || after.phase == ConnectPhase::Spawning
                || after.phase == ConnectPhase::Calling || after.phase is Polling
                || after.phase is Pausing ==> kept == manager
        }),
    decreases events.len(),
{
    if events.len() > 0 {
        lemma_connect_run(task, manager, events.drop_last());
    }
}

/// A command to connect that succeeds leaves a connection to the server of its URI, in the mode
/// that was asked for, which on Android is always the tunnel.
pub proof fn law_connect_success_is_shown(
    uri: Seq<char>,
    config: Seq<char>,
    tunnel_mode: bool,
    platform: Platform,
    manager: ManagerModel,
    events: Seq<ConnectEventModel>,
)
    requires
        events.len() > 0,
        all_expected(
            connect_begin(uri, Ok(config), tunnel_mode, platform).0->Some_0,
            manager,
            events,
        ),
        last_step(
            connect_begin(uri, Ok(config), tunnel_mode, platform).0->Some_0,
            manager,
            events,
        ).action matches ConnectActionModel::Finish { outcome: Ok(_), .. },
    ensures
        ({
            let task = connect_begin(uri, Ok(config), tunnel_mode, platform).0->Some_0;
            status_of(last_step(task, manager, events).manager, platform) == (StatusModel {
                connected: true,
                connected_uri: Some(uri),
                tunnel_mode: effective_mode(tunnel_mode, platform),
            })
        }),
{
    let task = connect_begin(uri, Ok(config), tunnel_mode, platform).0->Some_0;
    lemma_connect_run(task, manager, events.drop_last());
}

/// A command to connect that fails before its Xray process runs, or on Android, leaves the
/// connection that was there before; one whose Xray process ends leaves none; and one that
/// cannot make the settings of the system leaves the process running.
pub proof fn law_connect_failure(
    uri: Seq<char>,
    config: Seq<char>,
    tunnel_mode: bool,
    platform: Platform,
    manager: ManagerModel,
    events: Seq<ConnectEventModel>,
)
    requires
        events.len() > 0,
        all_expected(
            connect_begin(uri, Ok(config), tunnel_mode, platform).0->Some_0,
            manager,
            events,
        ),
        last_step(
            connect_begin(uri, Ok(config), tunnel_mode, platform).0->Some_0,
            manager,
            events,
        ).action matches ConnectActionModel::Finish { outcome: Err(_), .. },
    ensures
        ({
            let task = connect_begin(uri, Ok(config), tunnel_mode, platform).0->Some_0;
            let step = last_step(task, manager, events);
            match events.last() {
                ConnectEventModel::Checked(_) => step.manager == disconnected(),
                ConnectEventModel::Routed(_) => step.manager == established(step.task),
                _ => step.manager == manager,
            }
        }),
{
    let task = connect_begin(uri, Ok(config), tunnel_mode, platform).0->Some_0;
    lemma_connect_run(task, manager, events.drop_last());
}

/// An Xray process that has ended, and its files, are cleared away.
pub proof fn law_ended_process_is_cleared_away(
    task: ConnectModel,
    status: Seq<char>,
    log: Seq<char>,
)
    requires
        task.platform == Platform::Windows,
    ensures
        connect_step(
            task,
            established(task),
            ConnectEventModel::Checked(Some((status, log))),
        ).action matches ConnectActionModel::Finish { stop: Some(plan), .. } && {
            &&& plan.kill_child
            &&& plan.remove_files == seq![task.config_path, task.log_path]
        },
{
    assert(stop_plan(established(task), task.platform).remove_files =~= seq![
        task.config_path,
        task.log_path,
    ]);
}

/// The text that is handed over to be run.
pub open spec fn handed_over(action: ConnectActionModel) -> Option<Seq<char>> {
    match action {
        ConnectActionModel::Prepare(_, config) => Some(config),
        ConnectActionModel::Call(config, _) => Some(config),
        _ => None,
    }
}

/// A command to connect hands over a configuration that leads to the address, the port and the
/// user of the server that the URI describes, in the way that the server is connected to. It is
/// offered at the local port, or for all traffic at the network interface; on Android it is
/// always for all traffic. A URI that describes no server leads to nothing but its error.
pub proof fn law_connect_leads_to_server(
    uri: Seq<char>,
    parsed: Result<VlessModel, Seq<char>>,
    tunnel_mode: bool,
    platform: Platform,
)
    ensures
        ({
            let (task, action) = connect_begin(
                uri,
                connect_config(parsed, tunnel_mode, platform),
                tunnel_mode,
                platform,
            );
            let all = tunnel_mode || platform == Platform::Android;
            match parsed {
                Ok(server) => {
                    &&& task is Some <==> handed_over(action) is Some
                    &&& handed_over(action) matches Some(text) ==> exists|config: JsonTree|
                        {
                            &&& #[trigger] pretty_text(config) == Ok::<Seq<char>, Seq<char>>(text)
                            &&& leads_to(config, server)
                            &&& outbound_stream(config) == stream_tree(server)
                            &&& all ==> offers_interface(config, "oghab-tun"@)
                            &&& !all ==> offers_port(config, 10808)
                        }
                    &&& task matches Some(task) ==> {
                        &&& task.uri == uri
                        &&& task.platform == platform
                        &&& task.tunnel_mode == all
                    }
                    &&& task is Some ==> match platform {
                        Platform::Windows => action matches ConnectActionModel::Prepare(tag, _)
                            && tag == "active"@,
                        Platform::Android => action matches ConnectActionModel::Call(_, mode)
                            && mode,
                    }
                    &&& task is None ==> action matches ConnectActionModel::Finish {
                        outcome: Err(_),
                        stop: None,
                    }
                },
                Err(error) => {
                    &&& task is None
                    &&& action is Finish
                    &&& action->outcome == Err::<(), Seq<char>>(error)
                    &&& action->stop is None
                },
            }
        }),
{
    if let Ok(server) = parsed {
        let all = tunnel_mode || platform == Platform::Android;
        law_config_leads_to_server(server, 10808, all, "oghab-tun"@);
    }
}

/// A command to connect for a URI hands over a configuration that leads to the host, the port
/// and the user that are found in that URI.
pub proof fn law_connect_leads_where_the_uri_says(
    uri: Seq<char>,
    tunnel_mode: bool,
    platform: Platform,
)
    ensures
        ({
            let action = connect_begin(
                uri,
                connect_config(vless_of(uri), tunnel_mode, platform),
                tunnel_mode,
                platform,
            ).1;
            handed_over(action) matches Some(text) ==> exists|config: JsonTree|
                {
                    let url = parsed_url(uri)->Ok_0;
                    &&& #[trigger] pretty_text(config) == Ok::<Seq<char>, Seq<char>>(text)
                    &&& parsed_url(uri) is Ok
                    &&& url.host is Some
                    &&& outbound_server(config).field("address"@) == JsonTree::Text(
                        url.host->Some_0,
                    )
                    &&& url.port is Some ==> outbound_server(config).field("port"@)
                        == JsonTree::Number(url.port->Some_0 as nat)
                    &&& url.port is None ==> outbound_server(config).field("port"@)
                        == JsonTree::Number(443)
                    &&& outbound_user(config).field("id"@) == JsonTree::Text(trimmed(url.username))
                }
        }),
{
    law_connect_leads_to_server(uri, vless_of(uri), tunnel_mode, platform);
    law_server_is_that_of_the_uri(uri);
    let action = connect_begin(
        uri,
        connect_config(vless_of(uri), tunnel_mode, platform),
        tunnel_mode,
        platform,
    ).1;
    if let Some(text) = handed_over(action) {
        let server = vless_of(uri)->Ok_0;
        let config = choose|config: JsonTree|
            #[trigger] pretty_text(config) == Ok::<Seq<char>, Seq<char>>(text) && leads_to(
                config,
                server,
            );
        assert(pretty_text(config) == Ok::<Seq<char>, Seq<char>>(text));
    }
}

/// Once the Xray process runs, the system is set up for it: its proxy is set to the local port
/// of the configuration, or, where all traffic goes through the network interface, turned off.
pub proof fn law_system_is_set_up(task: ConnectModel, manager: ManagerModel)
    ensures
        ({
            let step = connect_step(task, manager, ConnectEventModel::Checked(None));
            &&& step.manager == manager
            &&& step.task.phase == ConnectPhase::Routing
            &&& step.action is Route
            &&& step.action->Route_0.len() == 3
            &&& step.action->Route_0[0] == (
                "ProxyEnable"@,
                RegistryModel::Number(
                    if task.tunnel_mode {
                        0
                    } else {
                        1
                    },
                ),
            )
            &&& step.action->Route_0[1] == (
                "ProxyServer"@,
                RegistryModel::Text(
                    if task.tunnel_mode {
                        ""@
                    } else {
                        "socks=127.0.0.1:"@ + decimal(10808)
                    },
                ),
            )
            &&& step.action->Route_0[2] == (
                "ProxyOverride"@,
                RegistryModel::Text(
                    if task.tunnel_mode {
                        ""@
                    } else {
                        bypassed()
                    },
                ),
            )
        }),
{
}

/// The addresses that are reached without the proxy: this machine and private networks.
pub open spec fn bypassed() -> Seq<char> {
    "localhost;127.*;10.*;172.16.*;172.17.*;172.18.*;172.19.*;172.20.*;172.21.*;172.22.*;172.23.*;172.24.*;172.25.*;172.26.*;172.27.*;172.28.*;172.29.*;172.30.*;172.31.*;192.168.*"@
}

/// The steps of a command to connect on Windows: the files, the process in the place of the one
/// before, a rest, a look at the process, the settings of the system.
pub proof fn law_connect_steps_on_windows(
    task: ConnectModel,
    manager: ManagerModel,
    config_path: Seq<char>,
    log_path: Seq<char>,
)
    requires
        task.platform == Platform::Windows,
    ensures
        ({
            let step = connect_step(
                task,
                manager,
                ConnectEventModel::Prepared(Ok((config_path, log_path))),
            );
            &&& step.manager == manager
            &&& step.task.phase == ConnectPhase::Spawning
            &&& step.task.config_path == config_path
            &&& step.task.log_path == log_path
            &&& step.task.uri == task.uri
            &&& step.task.tunnel_mode == task.tunnel_mode
            &&& step.action == ConnectActionModel::Spawn
        }),
        ({
            let step = connect_step(task, manager, ConnectEventModel::Spawned(Ok(())));
            &&& step.task.phase == ConnectPhase::Settling
            &&& step.manager.child
            &&& step.manager.config_path == Some(task.config_path)
            &&& step.manager.log_path == Some(task.log_path)
            &&& step.manager.connected_uri == Some(task.uri)
            &&& step.manager.tunnel_mode == task.tunnel_mode
            &&& step.action is Settle
            &&& step.action->Settle_0.kill_child == manager.child
            &&& step.action->Settle_1 == 1400
        }),
        task.phase == ConnectPhase::Settling ==> {
            let step = connect_step(task, manager, ConnectEventModel::Waited);
            &&& step.manager == manager
            &&& step.task.phase == ConnectPhase::Checking
            &&& step.action == ConnectActionModel::CheckExit
        },
        ({
            let step = connect_step(task, manager, ConnectEventModel::Routed(Ok(())));
            &&& step.task.phase == ConnectPhase::Over
            &&& step.manager == (ManagerModel {
                tunnel_mode: task.tunnel_mode || manager.tunnel_mode,
                ..manager
            })
            &&& step.action == (ConnectActionModel::Finish { outcome: Ok(()), stop: None })
        }),
{
}

/// The steps of a command to connect on Android: the service is started, then asked up to 180
/// times whether it runs, with a quarter of a second in between; as soon as it does, the server
/// is connected to.
pub proof fn law_connect_steps_on_android(task: ConnectModel, manager: ManagerModel)
    ensures
        ({
            let step = connect_step(task, manager, ConnectEventModel::Called(Ok(())));
            &&& step.manager == manager
            &&& step.task.phase == ConnectPhase::Polling(0)
            &&& step.action == ConnectActionModel::Poll
        }),
        task.phase matches ConnectPhase::Polling(polls) ==> (polls < 180 ==> {
            let runs = connect_step(task, manager, ConnectEventModel::Polled(Ok(true)));
            let waits = connect_step(task, manager, ConnectEventModel::Polled(Ok(false)));
            &&& runs.task.phase == ConnectPhase::Over
            &&& runs.action == (ConnectActionModel::Finish { outcome: Ok(()), stop: None })
            &&& runs.manager.connected_uri == Some(task.uri)
            &&& runs.manager.tunnel_mode == task.tunnel_mode
            &&& waits.manager == manager
            &&& waits.task.phase == ConnectPhase::Pausing((polls + 1) as u8)
            &&& waits.action == ConnectActionModel::Sleep(250)
        }),
        task.phase matches ConnectPhase::Pausing(polls) ==> {
            let step = connect_step(task, manager, ConnectEventModel::Waited);
            &&& step.manager == manager
            &&& polls < 180 ==> step.task.phase == ConnectPhase::Polling(polls) && step.action
                == ConnectActionModel::Poll
            &&& polls >= 180 ==> step.task.phase == ConnectPhase::Over && step.action == (
            ConnectActionModel::Finish {
                outcome: Err(
                    "Android VPN permission was not granted or VPN service did not start"@,
                ),
                stop: None,
            })
        },
{
}

/// A command to connect says why it fails.
pub proof fn law_connect_says_why_it_fails(
    task: ConnectModel,
    manager: ManagerModel,
    error: Seq<char>,
    log: Seq<char>,
)
    ensures
        forall|event: ConnectEventModel|
            event == ConnectEventModel::Prepared(Err(error)) || event == ConnectEventModel::Spawned(
                Err(error),
            ) || event == ConnectEventModel::Called(Err(error)) || event
                == ConnectEventModel::Polled(Err(error)) ==> {
                let step = #[trigger] connect_step(task, manager, event);
                &&& step.manager == manager
                &&& step.task.phase == ConnectPhase::Over
                &&& step.action == (ConnectActionModel::Finish { outcome: Err(error), stop: None })
            },
        ({
            let step = connect_step(task, manager, ConnectEventModel::Routed(Err(error)));
            let message = if task.tunnel_mode {
                "Failed to enable TUN route: "@
            } else {
                "Failed to enable system proxy: "@
            };
            &&& step.manager == manager
            &&& step.action == (ConnectActionModel::Finish {
                outcome: Err(message + error),
                stop: None,
            })
        }),
        ({
            let event = ConnectEventModel::Checked(Some((error, log)));
            let step = connect_step(task, manager, event);
            &&& step.action is Finish
            &&& step.action->outcome == Err::<(), Seq<char>>(
                "Xray exited unexpectedly with status "@ + error + ". "@ + log_summary(log),
            )
            &&& step.action->stop is Some
        }),
{
}

/// Giving a connection up kills its process if there is one and removes its files, and no
/// others; the proxy of the system is turned off. On Android there is nothing to clear away.
pub proof fn law_stop_clears_away(manager: ManagerModel, path: Seq<char>)
    ensures
        stop_plan(manager, Platform::Windows).kill_child == manager.child,
        stop_plan(manager, Platform::Windows).remove_files.contains(path) <==> manager.config_path
            == Some(path) || manager.log_path == Some(path),
        stop_plan(manager, Platform::Windows).remove_files.len() == (if manager.config_path is Some {
            1int
        } else {
            0int
        }) + (if manager.log_path is Some {
            1int
        } else {
            0int
        }),
        stop_plan(manager, Platform::Windows).registry == seq![
            ("ProxyEnable"@, RegistryModel::Number(0)),
            ("ProxyServer"@, RegistryModel::Text(""@)),
            ("ProxyOverride"@, RegistryModel::Text(""@)),
        ],
        !stop_plan(manager, Platform::Android).kill_child,
        stop_plan(manager, Platform::Android).remove_files.len() == 0,
        stop_plan(manager, Platform::Android).registry.len() == 0,
        given_up(manager, Platform::Windows) == (ManagerModel {
            child: false,
            config_path: None,
            log_path: None,
            connected_uri: None,
            tunnel_mode: false,
        }),
        given_up(manager, Platform::Android) == (ManagerModel {
            connected_uri: None,
            tunnel_mode: false,
            ..manager
        }),
{
    let files = stop_plan(manager, Platform::Windows).remove_files;
    law_stop_turns_proxy_off(manager);
    if manager.config_path is Some {
        assert(files[0] == manager.config_path->Some_0);
    }
    if manager.log_path is Some {
        assert(files[files.len() - 1] == manager.log_path->Some_0);
    }
}

/// What is shown is what is kept: on Windows there is a connection while there is a process, on
/// Android while there is a server.
pub proof fn law_status_shows_what_is_kept(manager: ManagerModel)
    ensures
        status_of(manager, Platform::Windows).connected == manager.child,
        status_of(manager, Platform::Android).connected == (manager.connected_uri is Some),
        forall|platform: Platform|
            {
                let status = #[trigger] status_of(manager, platform);
                &&& status.connected_uri == manager.connected_uri
                &&& status.tunnel_mode == manager.tunnel_mode
            },
{
}

/// A service that does not run, or does not say so, means on Android that no server is
/// connected to; the rest is kept.
pub proof fn law_silent_service_means_no_connection(
    manager: ManagerModel,
    running: Result<bool, Seq<char>>,
)
    requires
        running != Ok::<bool, Seq<char>>(true),
    ensures
        observed(manager, Platform::Android, running) == (ManagerModel {
            connected_uri: None,
            tunnel_mode: false,
            ..manager
        }),
{
}

/// The proxy of the system is turned on or off, with its server and its exceptions as they were
/// given; the tunnel needs it off, and is given up without a change.
pub proof fn law_proxy_settings(enable: bool, server: Seq<char>, bypass: Seq<char>)
    ensures
        proxy_writes(enable, server, bypass).len() == 3,
        proxy_writes(enable, server, bypass)[0].0 == "ProxyEnable"@,
        proxy_writes(true, server, bypass)[0].1 == RegistryModel::Number(1),
        proxy_writes(false, server, bypass)[0].1 == RegistryModel::Number(0),
        proxy_writes(enable, server, bypass)[1] == (
            "ProxyServer"@,
            RegistryModel::Text(server),
        ),
        proxy_writes(enable, server, bypass)[2] == (
            "ProxyOverride"@,
            RegistryModel::Text(bypass),
        ),
        tun_writes(true) == proxy_writes(false, ""@, ""@),
        tun_writes(false).len() == 0,
{
}

} // verus!
