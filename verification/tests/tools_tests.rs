use glabu::tools::{
    container_binary_path, image_tag, install_command, manifest_tag, prebuilt_binary_name,
    release_binary_path, target_triple, upload_invocation_args,
};

#[test]
fn image_and_manifest_tags() {
    assert_eq!(
        manifest_tag("registry.example.com/puterize/glabu", "abc1234"),
        "registry.example.com/puterize/glabu:abc1234"
    );
    assert_eq!(
        image_tag("registry.example.com/puterize/glabu", "abc1234", "arm64"),
        "registry.example.com/puterize/glabu:abc1234-arm64"
    );
}

#[test]
fn triples_and_binary_paths() {
    assert_eq!(target_triple("aarch64"), "aarch64-unknown-linux-musl");
    assert_eq!(
        release_binary_path("x86_64"),
        "./target/x86_64-unknown-linux-musl/release/glabu"
    );
    assert_eq!(prebuilt_binary_name("aarch64"), "glabu_aarch64");
    assert_eq!(container_binary_path("x86_64"), "/app/glabu_x86_64");
}

#[test]
fn install_instruction() {
    assert_eq!(
        install_command("./target/x86_64-unknown-linux-musl/release/glabu"),
        "sudo install ./target/x86_64-unknown-linux-musl/release/glabu /usr/local/bin/glabu"
    );
}

#[test]
fn self_upload_arguments() {
    assert_eq!(
        upload_invocation_args("puterize/prebuilt", "glabu", "abc1234", "glabu", "./glabu"),
        vec![
            "package-upload",
            "puterize/prebuilt",
            "--package-name",
            "glabu",
            "--package-version",
            "abc1234",
            "--file-name",
            "glabu",
            "--file-path",
            "./glabu",
        ]
    );
}
