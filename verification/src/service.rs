use vstd::prelude::*;
use crate::errors::AgentError;
use crate::manifest::Directive;
use crate::textutil::seq_contains;
use crate::textutil::contains_str;
use crate::webserver::opt_view;

verus! {

/// The directory the generated monitoring scripts are written to.
pub const MONITOR_DIR: &'static str = "/opt/ais/monitors/";

/// The start command used when a directive enables supervision without
/// naming one.
pub const DEFAULT_NODE_START: &'static str = "/usr/bin/npm run dev";

/// The view of an optional borrowed string.
pub open spec fn opt_str_view(o: Option<&str>) -> Option<Seq<char>> {
    match o {
        Some(s) => Some(s@),
        None => None,
    }
}

// ---------------------------------------------------------------------------
// Unit rendering
// ---------------------------------------------------------------------------

/// The rendered service unit for a supervised process: description, start
/// command, optional pre-start command, restart-always policy, fixed
/// execution user and group, and the working directory, stamped with the
/// managing platform's version.
pub open spec fn service_unit_spec(
    platform_version: Seq<char>,
    description: Seq<char>,
    exec_start: Seq<char>,
    exec_pre: Option<Seq<char>>,
    working_dir: Seq<char>,
) -> Seq<char> {
    " # THIS SERVICE FILE IS MANAGED BY: Artisan Platform Version: "@ + platform_version
        + " DO NOT CHANGE\n[Unit]\nDescription="@ + description
        + "\nAfter=network.target\n\n[Service]\nPermissionsStartOnly=false\nExecStart="@
        + exec_start + "\n"@ + (match exec_pre {
        Some(p) => "ExecStartPre="@ + p + "\n"@,
        None => Seq::<char>::empty(),
    })
        + "Restart=always\nUser=www-data\nGroup=www-data\nEnvironment=PATH=/usr/bin:/usr/local/bin\nWorkingDirectory="@
        + working_dir + "\n\n[Install]\nWantedBy=multi-user.target\n"@
}

/// Renders a service unit file for a supervised process.
pub fn create_node_systemd_service(
    exec_start: &str,
    exec_pre: Option<&str>,
    working_dir: &str,
    description: &str,
    platform_version: &str,
) -> (r: String)
    ensures
        r@ == service_unit_spec(
            platform_version@,
            description@,
            exec_start@,
            opt_str_view(exec_pre),
            working_dir@,
        ),
{
    let mut out = " # THIS SERVICE FILE IS MANAGED BY: Artisan Platform Version: ".to_owned();
    out.append(platform_version);
    out.append(" DO NOT CHANGE\n[Unit]\nDescription=");
    out.append(description);
    out.append("\nAfter=network.target\n\n[Service]\nPermissionsStartOnly=false\nExecStart=");
    out.append(exec_start);
    out.append("\n");
    match exec_pre {
        Some(p) => {
            out.append("ExecStartPre=");
            out.append(p);
            out.append("\n");
        },
        None => {},
    }
    out.append(
        "Restart=always\nUser=www-data\nGroup=www-data\nEnvironment=PATH=/usr/bin:/usr/local/bin\nWorkingDirectory=",
    );
    out.append(working_dir);
    out.append("\n\n[Install]\nWantedBy=multi-user.target\n");
    proof {
        assert(out@ =~= service_unit_spec(
            platform_version@,
            description@,
            exec_start@,
            opt_str_view(exec_pre),
            working_dir@,
        ));
    }
    out
}

/// The start command a directive asks for: its own when it names one, the
/// fixed default otherwise — never empty.
pub open spec fn start_command_spec(d: Directive) -> Seq<char> {
    match d.nodejs_exec_command {
        Some(c) => c@,
        None => "/usr/bin/npm run dev"@,
    }
}

/// Picks the start command for a directive's supervised process.
pub fn node_start_command(directive: &Directive) -> (r: String)
    ensures
        r@ == start_command_spec(*directive),
{
    match &directive.nodejs_exec_command {
        Some(c) => c.clone(),
        None => DEFAULT_NODE_START.to_owned(),
    }
}

/// The unit identity of the monitor companion of a service.
pub fn monitor_unit_name(service_id: &str) -> (r: String)
    ensures
        r@ == service_id@ + "_monitor"@,
{
    let mut name = service_id.to_owned();
    name.append("_monitor");
    proof {
        assert(name@ =~= service_id@ + "_monitor"@);
    }
    name
}

/// The path the monitoring script of a service is written to.
pub fn monitor_script_path(service_id: &str) -> (r: String)
    ensures
        r@ == "/opt/ais/monitors/"@ + service_id@ + ".monitor"@,
{
    let mut path = MONITOR_DIR.to_owned();
    path.append(service_id);
    path.append(".monitor");
    proof {
        assert(path@ =~= "/opt/ais/monitors/"@ + service_id@ + ".monitor"@);
    }
    path
}

/// The path the unit file of a service is written to.
pub fn unit_file_path(service_id: &str) -> (r: String)
    ensures
        r@ == "/etc/systemd/system/"@ + service_id@ + ".service"@,
{
    let mut path = "/etc/systemd/system/".to_owned();
    path.append(service_id);
    path.append(".service");
    proof {
        assert(path@ =~= "/etc/systemd/system/"@ + service_id@ + ".service"@);
    }
    path
}

/// The monitoring script generated for a deployment: it keeps the
/// application unit alive by restarting it whenever it is found inactive.
pub open spec fn monitor_script_spec(service_id: Seq<char>) -> Seq<char> {
    "#!/bin/bash\nwhile true; do\n    systemctl is-active --quiet "@ + service_id
        + " || systemctl restart "@ + service_id + "\n    sleep 30\ndone\n"@
}

/// Renders the monitoring script paired with a service.
pub fn render_monitor_script(service_id: &str) -> (r: String)
    ensures
        r@ == monitor_script_spec(service_id@),
{
    let mut out = "#!/bin/bash\nwhile true; do\n    systemctl is-active --quiet ".to_owned();
    out.append(service_id);
    out.append(" || systemctl restart ");
    out.append(service_id);
    out.append("\n    sleep 30\ndone\n");
    proof {
        assert(out@ =~= monitor_script_spec(service_id@));
    }
    out
}

// ---------------------------------------------------------------------------
// Install-step decisions
// ---------------------------------------------------------------------------

/// Decides whether the dependency-install step is needed, from the state of
/// the installed-dependencies directory and the install manifest: needed
/// when the directory is absent, older than the manifest, or empty.
pub fn needs_npm_install(
    node_modules_exists: bool,
    lock_file_mtime: u64,
    node_modules_mtime: u64,
    node_modules_entry_count: u64,
) -> (r: bool)
    ensures
        r == (!node_modules_exists || lock_file_mtime > node_modules_mtime
            || node_modules_entry_count == 0),
{
    !node_modules_exists || lock_file_mtime > node_modules_mtime || node_modules_entry_count == 0
}

/// Decides from the version manager's listing output whether a runtime
/// version still has to be installed: it is missing exactly when the
/// listing does not mention it.
pub fn node_version_missing(listing_output: &str, version: &str) -> (r: bool)
    ensures
        r == !seq_contains(listing_output@, version@),
{
    !contains_str(listing_output, version)
}

// ---------------------------------------------------------------------------
// Provisioning
// ---------------------------------------------------------------------------

/// The unit-manager state a provision transaction works on: the unit file
/// and script contents written for one deployment, whether the manager's
/// unit index was reloaded, and which units were enabled and started.
#[derive(Debug)]
pub struct UnitStore {
    pub app_unit: Option<String>,
    pub monitor_unit: Option<String>,
    pub monitor_script: Option<String>,
    pub daemon_reloaded: bool,
    pub enabled: Vec<String>,
}

impl UnitStore {
    /// A unit manager that holds nothing for this deployment yet.
    pub fn empty() -> (r: UnitStore)
        ensures
            r.app_unit is None,
            r.monitor_unit is None,
            r.monitor_script is None,
            r.daemon_reloaded == false,
            r.enabled@.len() == 0,
    {
        UnitStore {
            app_unit: None,
            monitor_unit: None,
            monitor_script: None,
            daemon_reloaded: false,
            enabled: Vec::new(),
        }
    }
}

/// The verdicts of the outside steps a provision transaction depends on:
/// whether a dependency install was needed and succeeded, and whether the
/// unit manager's reload and the two enable calls succeeded.
#[derive(Debug, Clone, Copy)]
pub struct ProvisionOutcomes {
    pub npm_needed: bool,
    pub npm_ok: bool,
    pub reload_ok: bool,
    pub enable_app_ok: bool,
    pub enable_monitor_ok: bool,
}

/// The description line stamped into a deployment's application unit.
pub fn app_unit_description(working_dir: &str) -> (r: String)
    ensures
        r@ == "Ais project id "@ + working_dir@,
{
    let mut out = "Ais project id ".to_owned();
    out.append(working_dir);
    proof {
        assert(out@ =~= "Ais project id "@ + working_dir@);
    }
    out
}

/// The application unit text provisioning writes for a directive.
pub open spec fn app_unit_spec(
    d: Directive,
    working_dir: Seq<char>,
    platform_version: Seq<char>,
) -> Seq<char> {
    service_unit_spec(
        platform_version,
        "Ais project id "@ + working_dir,
        start_command_spec(d),
        opt_view(d.nodejs_pre_exec_command),
        working_dir,
    )
}

/// The monitor unit text provisioning writes for a service identity: it
/// runs the generated monitoring script out of the deployment's own
/// directory.
pub open spec fn monitor_unit_spec(
    service_id: Seq<char>,
    working_dir: Seq<char>,
    platform_version: Seq<char>,
) -> Seq<char> {
    service_unit_spec(
        platform_version,
        service_id + "_monitor"@,
        "/opt/ais/monitors/"@ + service_id + ".monitor"@,
        None,
        working_dir,
    )
}

/// Whether the dependency-install step failed: it was needed and the
/// installer did not succeed.
pub open spec fn deps_failed(o: ProvisionOutcomes) -> bool {
    o.npm_needed && !o.npm_ok
}

/// Whether every step of a provision transaction succeeded.
pub open spec fn provision_ok(o: ProvisionOutcomes) -> bool {
    !deps_failed(o) && o.reload_ok && o.enable_app_ok && o.enable_monitor_ok
}

/// What one provision transaction does to the unit-manager state `pre`,
/// leaving `post`, for the given directive and step verdicts, case by case:
/// a failed dependency install changes nothing; otherwise all three texts
/// are written; a failed reload enables nothing; a failed enable of the
/// application unit enables nothing; a failed enable of the monitor leaves
/// exactly the application enabled; the fully successful path appends the
/// application unit and then its monitor to the enabled units.
pub open spec fn provision_store_effect(
    pre: UnitStore,
    post: UnitStore,
    d: Directive,
    service_id: Seq<char>,
    working_dir: Seq<char>,
    platform_version: Seq<char>,
    o: ProvisionOutcomes,
) -> bool {
    &&& deps_failed(o) ==> post == pre
    &&& !deps_failed(o) ==> opt_view(post.app_unit) == Some(
        app_unit_spec(d, working_dir, platform_version),
    ) && opt_view(post.monitor_unit) == Some(
        monitor_unit_spec(service_id, working_dir, platform_version),
    )
        && opt_view(post.monitor_script) == Some(monitor_script_spec(service_id))
    &&& (!deps_failed(o) && !o.reload_ok) ==> post.daemon_reloaded == pre.daemon_reloaded
        && post.enabled@ == pre.enabled@
    &&& (!deps_failed(o) && o.reload_ok) ==> post.daemon_reloaded == true
    &&& (!deps_failed(o) && o.reload_ok && !o.enable_app_ok) ==> post.enabled@ == pre.enabled@
    &&& (!deps_failed(o) && o.reload_ok && o.enable_app_ok && !o.enable_monitor_ok) ==> post.enabled@.len()
        == pre.enabled@.len() + 1 && (forall|i: int|
        0 <= i < pre.enabled@.len() ==> post.enabled@[i] == pre.enabled@[i])
        && post.enabled@.last()@ == service_id
    &&& provision_ok(o) ==> post.enabled@.len() == pre.enabled@.len() + 2 && (forall|i: int|
        0 <= i < pre.enabled@.len() ==> post.enabled@[i] == pre.enabled@[i])
        && post.enabled@[pre.enabled@.len() as int]@ == service_id && post.enabled@.last()@
        == service_id + "_monitor"@
}

/// Provisions the supervised process of a directive: installs dependencies
/// when needed, writes the application unit, the monitor script and the
/// monitor unit, reloads the unit manager's index, and enables and starts
/// both units — in that order, aborting at the first failing step.
///
/// No unit is enabled without a preceding successful reload, and a failed
/// dependency install leaves no unit written at all.
pub fn provision_service(
    store: &mut UnitStore,
    directive: &Directive,
    service_id: &str,
    working_dir: &str,
    platform_version: &str,
    outcomes: ProvisionOutcomes,
) -> (r: Result<(), AgentError>)
    ensures
        provision_store_effect(
            *old(store),
            *final(store),
            *directive,
            service_id@,
            working_dir@,
            platform_version@,
            outcomes,
        ),
        r is Ok <==> provision_ok(outcomes),
        deps_failed(outcomes) ==> (r matches Err(e) && e is Dependency),
        (!deps_failed(outcomes) && !provision_ok(outcomes)) ==> (r matches Err(e) && e is Service),
{
    // Dependencies first: no service is installed against missing ones.
    if outcomes.npm_needed && !outcomes.npm_ok {
        return Err(AgentError::Dependency(
            "an error occurred while installing npm dependencies".to_owned(),
        ));
    }
    // Write the application unit (replacing any pre-existing one).
    let exec_start = node_start_command(directive);
    let exec_pre: Option<&str> = match &directive.nodejs_pre_exec_command {
        Some(p) => Some(p.as_str()),
        None => None,
    };
    let description = app_unit_description(working_dir);
    let unit_text = create_node_systemd_service(
        exec_start.as_str(),
        exec_pre,
        working_dir,
        description.as_str(),
        platform_version,
    );
    store.app_unit = Some(unit_text);
    // Write the monitor script and the monitor companion unit.
    let script = render_monitor_script(service_id);
    store.monitor_script = Some(script);
    let monitor_id = monitor_unit_name(service_id);
    let script_path = monitor_script_path(service_id);
    let monitor_text = create_node_systemd_service(
        script_path.as_str(),
        None,
        working_dir,
        monitor_id.as_str(),
        platform_version,
    );
    store.monitor_unit = Some(monitor_text);
    // Reload the unit index; a failure here is fatal and enables nothing.
    if !outcomes.reload_ok {
        return Err(AgentError::Service("the unit manager failed to reload its index".to_owned()));
    }
    store.daemon_reloaded = true;
    // Enable and start the application unit, then its monitor.
    if !outcomes.enable_app_ok {
        return Err(AgentError::Service("the application unit could not be enabled".to_owned()));
    }
    store.enabled.push(service_id.to_owned());
    if !outcomes.enable_monitor_ok {
        return Err(AgentError::Service("the monitor unit could not be enabled".to_owned()));
    }
    store.enabled.push(monitor_id);
    Ok(())
}

} // verus!
