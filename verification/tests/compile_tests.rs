use pwnenv::config::{Config, Tool, ToolInstall};

#[test]
fn compile_is_deterministic() {
    let c = Config::default();
    let first = c.to_dockerfile();
    let second = c.to_dockerfile();
    assert_eq!(first, second);
    let again = Config::default().to_dockerfile();
    assert_eq!(first, again);
}

#[test]
fn exact_match_beats_wildcard() {
    let installs = [
        ToolInstall::new("default", &["RUN wildcard-way"]),
        ToolInstall::new("img:1", &["RUN exact-way"]),
    ];
    let tool = Tool::new("thing", &installs);
    let config = Config::new("img:1", &[], &[tool], &[]);
    let out = config.to_dockerfile();
    assert_eq!(out, "FROM img:1\nRUN exact-way\n");
    assert!(!out.contains("RUN wildcard-way"));
}

#[test]
fn wildcard_applies_to_any_base_image() {
    let installs = [ToolInstall::new("default", &["RUN wildcard-way"])];
    for base in ["img:1", "something-else", "default"] {
        let config = Config::new(base, &[], &[Tool::new("thing", &installs)], &[]);
        let out = config.to_dockerfile();
        assert_eq!(out, format!("FROM {}\nRUN wildcard-way\n", base));
    }
}

#[test]
fn unmatched_tool_is_silently_skipped() {
    let installs = [ToolInstall::new("img:2", &["RUN other-way"])];
    let tool = Tool::new("thing", &installs);
    let config = Config::new("img:1", &["RUN init"], &[tool], &["RUN post"]);
    let out = config.to_dockerfile();
    assert_eq!(out, "FROM img:1\nRUN init\nRUN post\n");
}

#[test]
fn output_starts_with_base_line_and_ends_with_post_lines() {
    let installs = [ToolInstall::new("default", &["RUN tool-line"])];
    let tool = Tool::new("thing", &installs);
    let config = Config::new(
        "img:1",
        &["RUN init-one", "RUN init-two"],
        &[tool],
        &["RUN post-one", "RUN post-two"],
    );
    let out = config.to_dockerfile();
    assert!(out.starts_with("FROM img:1\n"));
    assert!(out.ends_with("RUN post-one\nRUN post-two\n"));
    assert_eq!(out.matches("FROM ").count(), 1);
}

#[test]
fn default_config_compiles_every_wildcard_tool_in_order() {
    let out = Config::default().to_dockerfile();
    assert!(out.starts_with("FROM amd64/ubuntu:22.04\n"));
    // The first line of each catalog entry, in catalog order.
    let leads = [
        "RUN apt install build-essential -y",
        "RUN apt install ca-certificates -y",
        "RUN apt install libssl-dev -y",
        "RUN apt install zlib1g-dev -y",
        "RUN apt install libbz2-dev -y",
        "RUN apt install libreadline-dev -y",
        "RUN apt install libsqlite3-dev -y",
        "RUN apt install wget -y",
        "RUN apt install curl -y",
        "RUN apt install llvm -y",
        "RUN apt install make -y",
        "RUN apt install zip -y",
        "RUN apt install unzip -y",
        "RUN apt install libncurses5-dev -y",
        "RUN apt install libncursesw5-dev -y",
        "RUN apt install xz-utils -y",
        "RUN apt install tk-dev -y",
        "RUN apt install libxml2-dev -y",
        "RUN apt install libxmlsec1-dev -y",
        "RUN apt install libffi-dev -y",
        "RUN apt install liblzma-dev -y",
        "RUN apt install libyaml-dev -y",
        "RUN apt install python3 -y",
        "RUN apt install python3-dev -y",
        "RUN apt install python3-pip -y",
        "RUN apt install gcc -y",
        "RUN apt install tree -y",
        "RUN apt install git -y",
        "RUN apt install neovim -y",
        "RUN apt install neofetch -y",
        "RUN apt install openssh-server -y",
        "RUN apt install patchelf -y",
        "RUN apt install elfutils -y",
        "RUN apt install psmisc -y",
        "RUN apt install file -y",
        "RUN apt install devscripts -y",
        "RUN apt install fish -y",
        "RUN apt install libseccomp-dev libseccomp2 seccomp -y",
        "RUN apt install ruby-dev -y",
        "RUN git clone https://github.com/pyenv/pyenv.git $HOME/.pyenv",
        "RUN pip install ptrlib",
        "RUN pip install pwntools",
        "RUN curl https://sh.rustup.rs -sSf | sh -s -- -y",
        "RUN cargo install ropr",
        "RUN cargo install bat",
        "RUN cargo install eza",
        "RUN apt install gdb -y",
        "RUN cargo install pwninit",
        "RUN gem install seccomp-tools --no-document --force",
        "RUN git clone https://github.com/bminor/glibc",
        "RUN apt install ripgrep -y",
    ];
    let mut position = 0usize;
    for lead in leads {
        let line = format!("{}\n", lead);
        let found = out[position..]
            .find(&line)
            .unwrap_or_else(|| panic!("missing or out of order: {}", lead));
        position += found + line.len();
    }
    // The fish lines appear verbatim and contiguous.
    assert!(out.contains(
        "RUN apt install fish -y\nRUN chsh -s /bin/fish\nRUN mkdir /root/.config/fish\n"
    ));
    // The post script closes the output.
    assert!(out.ends_with(
        "RUN echo \"set -x LC_CTYPE C.UTF-8\" >> /root/.config/fish/config.fish\n"
    ));
}

#[test]
fn default_init_script_is_emitted_before_the_tools() {
    let out = Config::default().to_dockerfile();
    let init = "ENV DEBIAN_FRONTEND noninteractive\nENV TZ Asia/Tokyo\nRUN apt update\n\
                RUN apt-get update\nRUN apt install -y\nRUN mkdir /root/tools\n\
                RUN mkdir /root/workspace\nRUN mkdir /root/.config\n";
    assert!(out.starts_with(&format!("FROM amd64/ubuntu:22.04\n{}", init)));
}
