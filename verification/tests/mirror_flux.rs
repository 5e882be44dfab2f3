use fedcore::commands::mirror_flux::{
    collect_images, extract_flux_images, flux_export_command, flux_image_copy_command, flux_mirror_target,
};

fn strings(v: &[&str]) -> Vec<String> {
    v.iter().map(|s| s.to_string()).collect()
}

#[test]
fn extract_flux_images_reads_image_lines_once() {
    let manifest = "spec:\n  image: ghcr.io/fluxcd/source-controller:v1\n  image: ghcr.io/fluxcd/source-controller:v1 \n  - image: ghcr.io/fluxcd/kustomize-controller:v1\nno image here\n";
    let images = extract_flux_images(manifest).ok().unwrap();
    assert_eq!(images, strings(&["ghcr.io/fluxcd/source-controller:v1", "ghcr.io/fluxcd/kustomize-controller:v1"]));
    assert!(extract_flux_images("kind: Namespace\n").ok().unwrap().is_empty());
}

#[test]
fn collect_images_trims_and_dedups_in_order() {
    let caps = vec![Some(" b ".to_string()), None, Some("a".to_string()), Some("b".to_string())];
    assert_eq!(collect_images(&caps), strings(&["b", "a"]));
}

#[test]
fn flux_mirror_target_drops_ghcr_host() {
    assert_eq!(flux_mirror_target("ghcr.io/fluxcd/source-controller:v1", "mirror.io"), "mirror.io/fluxcd/source-controller:v1");
    assert_eq!(flux_mirror_target("docker.io/x:1", "m"), "m/docker.io/x:1");
}

#[test]
fn flux_commands_export_and_copy() {
    let e = flux_export_command();
    assert_eq!(e.program, "flux");
    assert_eq!(e.args, strings(&["install", "--components-extra=image-reflector-controller,image-automation-controller", "--export"]));
    let c = flux_image_copy_command("ghcr.io/a:1", "m/a:1");
    assert_eq!(c.program, "crane");
    assert_eq!(c.args, strings(&["copy", "--platform=all", "ghcr.io/a:1", "m/a:1"]));
}
