use wire_substrate::substrate::{
    parity_demo_assertions, parity_demo_markdown, parity_demo_steps, substrate_default_workers, substrate_stack_name, BackgroundWorker,
    LocalPersistence, OperatorApiSurface, OperatorRoute, OptInPolicy,
};

#[test]
fn stack_name_and_demo_policies() {
    assert_eq!(substrate_stack_name(), "agent-wire-substrate");
    let opt_in = OptInPolicy::all_opted_in();
    assert!(opt_in.compute_provider && opt_in.compute_requester && opt_in.wake_triggers);
    let layout = LocalPersistence::default_layout();
    assert_eq!(layout.state_dir, "~/.wire-node/state");
}

#[test]
fn default_composition_covers_parity_behaviours() {
    let api = OperatorApiSurface::all_enabled("http://127.0.0.1:7420".to_owned());
    let workers = substrate_default_workers();
    assert_eq!(api.routes.len(), 9);
    assert_eq!(workers.len(), 6);
    assert!(parity_demo_assertions(&api.routes, &workers));
}

#[test]
fn missing_route_or_worker_breaks_parity() {
    let api = OperatorApiSurface::all_enabled("http://127.0.0.1:7420".to_owned());
    let workers = substrate_default_workers();
    let fewer_routes: Vec<OperatorRoute> = api
        .routes
        .iter()
        .copied()
        .filter(|r| *r != OperatorRoute::PinStorage)
        .collect();
    assert!(!parity_demo_assertions(&fewer_routes, &workers));
    let fewer_workers: Vec<BackgroundWorker> = workers
        .iter()
        .copied()
        .filter(|w| *w != BackgroundWorker::TunnelDelivery)
        .collect();
    assert!(!parity_demo_assertions(&api.routes, &fewer_workers));
}

#[test]
fn parity_demo_covers_reference_client_behaviors() {
    let api = OperatorApiSurface::all_enabled("http://127.0.0.1:8787".to_owned());
    let workers = substrate_default_workers();
    let steps = parity_demo_steps();

    assert!(parity_demo_assertions(&api.routes, &workers));
    assert!(steps.iter().any(|step| step.name == "tunnel-p2p-delivery"));
    assert!(steps.iter().any(|step| step.name == "wake-up-triggers"));
    assert_eq!(steps.len(), 9);
}

#[test]
fn parity_demo_markdown_lists_each_step() {
    let steps = parity_demo_steps();
    let markdown = parity_demo_markdown(&steps);
    assert!(markdown.starts_with("# Agent Wire Substrate Node 2.0 Parity Demo\n\n"));
    assert!(markdown.contains("## Steps\n\n- authenticate-mainnet: master public key and mainnet endpoint are present\n"));
    assert!(markdown.ends_with(
        "- wake-up-triggers: background lifecycle listens for message, task, and contribution events\n"
    ));
    assert_eq!(markdown.lines().filter(|line| line.starts_with("- ")).count(), 9);
}

#[test]
fn parity_demo_covers_required_stage_10_behaviors() {
    let api = OperatorApiSurface::all_enabled("http://127.0.0.1:8787".to_owned());
    let workers = substrate_default_workers();
    let steps = parity_demo_steps();

    assert!(parity_demo_assertions(&api.routes, &workers));
    assert!(steps.iter().any(|step| step.name == "tunnel-p2p-delivery"));
    assert!(steps.iter().any(|step| step.name == "wake-up-triggers"));
}
