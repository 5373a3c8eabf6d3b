use vstd::prelude::*;
use crate::errors::AgentError;
use crate::manifest::Directive;
use crate::textutil::{dec_digits, str_eq, u64_to_dec};

verus! {

/// The directory the generated webserver configurations are written to.
pub const WEBSERVER_CONFIG_DIR: &'static str = "/etc/nginx/conf.d/";

/// The view of an optional owned string.
pub open spec fn opt_view(o: Option<String>) -> Option<Seq<char>> {
    match o {
        Some(s) => Some(s@),
        None => None,
    }
}

// ---------------------------------------------------------------------------
// Backend dispatch
// ---------------------------------------------------------------------------

/// The backend dispatch line selected by the PHP runtime version: a small
/// closed table with an explicit default for unrecognized or absent
/// versions.
pub open spec fn php_backend_spec(version: Option<Seq<char>>) -> Seq<char> {
    match version {
        Some(v) => if v == "7.4"@ {
            "fastcgi_pass unix:/var/run/php/php7.4-fpm.sock;"@
        } else if v == "8.1"@ {
            "fastcgi_pass unix:/var/run/php/php8.1-fpm.sock;"@
        } else if v == "8.2"@ {
            "fastcgi_pass unix:/var/run/php/php8.2-fpm.sock;"@
        } else {
            "fastcgi_pass unix:/var/run/php/php8.1-fpm.sock;"@
        },
        None => "fastcgi_pass unix:/var/run/php/php8.1-fpm.sock;"@,
    }
}

/// Selects the backend dispatch line for a PHP runtime version.
pub fn php_backend_line(version: &Option<String>) -> (r: String)
    ensures
        r@ == php_backend_spec(opt_view(*version)),
{
    match version {
        Some(v) => {
            if str_eq(v.as_str(), "7.4") {
                "fastcgi_pass unix:/var/run/php/php7.4-fpm.sock;".to_owned()
            } else if str_eq(v.as_str(), "8.1") {
                "fastcgi_pass unix:/var/run/php/php8.1-fpm.sock;".to_owned()
            } else if str_eq(v.as_str(), "8.2") {
                "fastcgi_pass unix:/var/run/php/php8.2-fpm.sock;".to_owned()
            } else {
                "fastcgi_pass unix:/var/run/php/php8.1-fpm.sock;".to_owned()
            }
        },
        None => "fastcgi_pass unix:/var/run/php/php8.1-fpm.sock;".to_owned(),
    }
}

// ---------------------------------------------------------------------------
// Config rendering
// ---------------------------------------------------------------------------

/// The rendered webserver configuration for a directive: listen port,
/// server name, document root, and the version-keyed backend dispatch line.
pub open spec fn nginx_config_spec(
    port: u16,
    url: Seq<char>,
    root: Seq<char>,
    php: Option<Seq<char>>,
) -> Seq<char> {
    "server {\n    listen "@ + dec_digits(port as int) + ";\n    server_name "@ + url
        + ";\n    root "@ + root
        + ";\n\n    location / {\n        try_files $uri $uri/ /index.php$is_args$args;\n    }\n\n    location ~ \\.php$ {\n        "@
        + php_backend_spec(php) + "\n    }\n\n    error_log /var/log/nginx/"@ + url
        + ".error.log;\n    access_log /var/log/nginx/"@ + url + ".access.log;\n}\n"@
}

/// Renders the webserver configuration text for a directive, with the
/// deployment directory as the document root.
pub fn render_nginx_config(directive: &Directive, base_path: &str) -> (r: String)
    ensures
        r@ == nginx_config_spec(
            directive.port,
            directive.url@,
            base_path@,
            opt_view(directive.php_fpm_version),
        ),
{
    let mut out = "server {\n    listen ".to_owned();
    let port_dec = u64_to_dec(directive.port as u64);
    out.append(port_dec.as_str());
    out.append(";\n    server_name ");
    out.append(directive.url.as_str());
    out.append(";\n    root ");
    out.append(base_path);
    out.append(
        ";\n\n    location / {\n        try_files $uri $uri/ /index.php$is_args$args;\n    }\n\n    location ~ \\.php$ {\n        ",
    );
    let php = php_backend_line(&directive.php_fpm_version);
    out.append(php.as_str());
    out.append("\n    }\n\n    error_log /var/log/nginx/");
    out.append(directive.url.as_str());
    out.append(".error.log;\n    access_log /var/log/nginx/");
    out.append(directive.url.as_str());
    out.append(".access.log;\n}\n");
    proof {
        assert(out@ =~= nginx_config_spec(
            directive.port,
            directive.url@,
            base_path@,
            opt_view(directive.php_fpm_version),
        ));
    }
    out
}

/// The file name the configuration for a directive is written under.
pub fn config_file_name(directive: &Directive) -> (r: String)
    ensures
        r@ == directive.url@ + ".conf"@,
{
    let mut name = directive.url.clone();
    name.append(".conf");
    name
}

// ---------------------------------------------------------------------------
// Atomic deployment
// ---------------------------------------------------------------------------

/// The three sibling paths of one configuration during a deploy
/// transaction: the live file, its backup, and the freshly written
/// candidate. `None` stands for an absent file.
#[derive(Debug, Clone)]
pub struct ConfigStore {
    pub live: Option<String>,
    pub backup: Option<String>,
    pub temp: Option<String>,
}

impl ConfigStore {
    /// A location with no configuration deployed yet.
    pub fn empty() -> (r: ConfigStore)
        ensures
            r.live is None,
            r.backup is None,
            r.temp is None,
    {
        ConfigStore { live: None, backup: None, temp: None }
    }
}

/// Runs the backup, write-candidate, swap and cleanup steps of one deploy
/// transaction, given the verdict of the configuration validation command.
///
/// The live file is never written directly: on a failed validation it is
/// byte-identical to its pre-deploy content, and on a successful one it is
/// exactly the rendered text with no backup or candidate sibling left over.
pub fn deploy_rendered(store: &mut ConfigStore, rendered: &str, validation_ok: bool) -> (r: Result<
    bool,
    AgentError,
>)
    ensures
        validation_ok ==> (r matches Ok(changed) && changed == true) && opt_view(
            (*final(store)).live,
        ) == Some(rendered@) && (*final(store)).backup is None && (*final(store)).temp is None,
        !validation_ok ==> (r matches Err(e) && e is Integrity) && opt_view(
            (*final(store)).live,
        ) == opt_view((*old(store)).live) && opt_view((*final(store)).temp) == Some(rendered@)
            && ((*old(store)).live is Some ==> (*final(store)).backup is None) && (
        (*old(store)).live is None ==> (*final(store)).backup == (*old(store)).backup),
{
    // Back up the live configuration, if one exists.
    let backup_copy: Option<String> = match &store.live {
        Some(cur) => Some(cur.clone()),
        None => None,
    };
    let made_backup = backup_copy.is_some();
    if made_backup {
        store.backup = backup_copy;
    }
    // Write the candidate beside the live file, never over it.
    store.temp = Some(rendered.to_owned());
    if !validation_ok {
        // Roll back: restore the backup taken in this transaction over the
        // live path, leaving the live configuration as it was found.
        if made_backup {
            let restored: Option<String> = match &store.backup {
                Some(b) => Some(b.clone()),
                None => None,
            };
            store.live = restored;
            store.backup = None;
        }
        return Err(AgentError::Integrity("the configuration validation command failed".to_owned()));
    }
    // Swap the validated candidate over the live path, then drop the backup.
    store.live = Some(rendered.to_owned());
    store.temp = None;
    store.backup = None;
    Ok(true)
}

/// Folds the per-directive `changed` flags of one cycle: the webserver is
/// reloaded once per cycle, exactly when some deploy changed its
/// configuration.
pub fn any_config_changed(changed_flags: &Vec<bool>) -> (r: bool)
    ensures
        r == exists|i: int| 0 <= i < changed_flags@.len() && changed_flags@[i],
{
    let n = changed_flags.len();
    let mut i: usize = 0;
    while i < n
        invariant
            0 <= i <= n,
            n == changed_flags@.len(),
            forall|k: int| 0 <= k < i ==> !changed_flags@[k],
        decreases n - i,
    {
        if changed_flags[i] {
            return true;
        }
        i = i + 1;
    }
    false
}

/// Renders and atomically deploys the webserver configuration for a
/// directive, given the verdict of the validation command: the live
/// configuration is either the previous one (failed validation, rolled
/// back, an integrity error) or exactly the newly rendered one (successful
/// validation, `changed` reported as true).
pub fn create_nginx_config(
    directive: &Directive,
    base_path: &str,
    store: &mut ConfigStore,
    validation_ok: bool,
) -> (r: Result<bool, AgentError>)
    ensures
        validation_ok ==> (r matches Ok(changed) && changed == true) && opt_view(
            (*final(store)).live,
        ) == Some(
            nginx_config_spec(
                directive.port,
                directive.url@,
                base_path@,
                opt_view(directive.php_fpm_version),
            ),
        ) && (*final(store)).backup is None && (*final(store)).temp is None,
        !validation_ok ==> (r matches Err(e) && e is Integrity) && opt_view(
            (*final(store)).live,
        ) == opt_view((*old(store)).live),
{
    let rendered = render_nginx_config(directive, base_path);
    deploy_rendered(store, rendered.as_str(), validation_ok)
}

} // verus!
