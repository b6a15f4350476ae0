use vstd::prelude::*;

verus! {

/// The base-image identifier that marks an install script as the wildcard
/// fallback: it applies whenever no install targets the configured base
/// image exactly.
pub open spec fn wildcard_target() -> Seq<char> {
    "default"@
}

/// Views of a sequence of string slices.
pub open spec fn views_of_strs(ss: Seq<&str>) -> Seq<Seq<char>> {
    ss.map_values(|s: &str| s@)
}

/// Views of a sequence of owned strings.
pub open spec fn views_of_strings(ss: Seq<String>) -> Seq<Seq<char>> {
    ss.map_values(|s: String| s@)
}

/// One installation recipe for a tool: the base image it targets
/// (`"default"` meaning any) and the build-script lines that install it.
#[derive(Debug)]
pub struct ToolInstall {
    base_image: String,
    script: Vec<String>,
}

/// Mathematical view of a `ToolInstall`.
pub struct ToolInstallV {
    pub base_image: Seq<char>,
    pub script: Seq<Seq<char>>,
}

impl View for ToolInstall {
    type V = ToolInstallV;

    closed spec fn view(&self) -> ToolInstallV {
        ToolInstallV { base_image: self.base_image@, script: views_of_strings(self.script@) }
    }
}

/// A named tool with its ordered alternative installation recipes.
#[derive(Debug)]
pub struct Tool {
    name: String,
    installs: Vec<ToolInstall>,
}

/// Mathematical view of a `Tool`.
pub struct ToolV {
    pub name: Seq<char>,
    pub installs: Seq<ToolInstallV>,
}

impl View for Tool {
    type V = ToolV;

    closed spec fn view(&self) -> ToolV {
        ToolV { name: self.name@, installs: self.installs@.map_values(|i: ToolInstall| i@) }
    }
}

/// Views of a sequence of tools.
pub open spec fn views_of_tools(ts: Seq<Tool>) -> Seq<ToolV> {
    ts.map_values(|t: Tool| t@)
}

/// The persisted configuration: base image, init script, tool catalog and
/// post script.  The compiled image definition is a pure function of it.
#[derive(Debug)]
pub struct Config {
    base_image: String,
    init_script: Vec<String>,
    post_script: Vec<String>,
    tools: Vec<Tool>,
}

/// Mathematical view of a `Config`.
pub struct ConfigV {
    pub base_image: Seq<char>,
    pub init_script: Seq<Seq<char>>,
    pub post_script: Seq<Seq<char>>,
    pub tools: Seq<ToolV>,
}

impl View for Config {
    type V = ConfigV;

    closed spec fn view(&self) -> ConfigV {
        ConfigV {
            base_image: self.base_image@,
            init_script: views_of_strings(self.init_script@),
            post_script: views_of_strings(self.post_script@),
            tools: views_of_tools(self.tools@),
        }
    }
}

/// First install at or after position `i` whose target equals `target`.
pub open spec fn find_install_from(installs: Seq<ToolInstallV>, target: Seq<char>, i: int) -> Option<
    ToolInstallV,
>
    decreases installs.len() - i,
{
    if i < 0 || i >= installs.len() {
        None
    } else if installs[i].base_image == target {
        Some(installs[i])
    } else {
        find_install_from(installs, target, i + 1)
    }
}

/// First install whose target equals `target`, if any.
pub open spec fn find_install(installs: Seq<ToolInstallV>, target: Seq<char>) -> Option<
    ToolInstallV,
> {
    find_install_from(installs, target, 0)
}

/// The install selected for a tool under a given base image: the first
/// exact match wins; otherwise the first wildcard install; otherwise none.
pub open spec fn selected_install(t: ToolV, base: Seq<char>) -> Option<ToolInstallV> {
    match find_install(t.installs, base) {
        Some(i) => Some(i),
        None => find_install(t.installs, wildcard_target()),
    }
}

/// The script lines a tool contributes to the compiled output: those of its
/// selected install, or nothing when no install applies.
pub open spec fn tool_script(t: ToolV, base: Seq<char>) -> Seq<Seq<char>> {
    match selected_install(t, base) {
        Some(i) => i.script,
        None => Seq::empty(),
    }
}

/// Text of a sequence of lines, each terminated by a newline.
pub open spec fn lines_text(ls: Seq<Seq<char>>) -> Seq<char>
    decreases ls.len(),
{
    if ls.len() == 0 {
        Seq::empty()
    } else {
        lines_text(ls.drop_last()) + ls.last() + seq!['\n']
    }
}

/// Text contributed by a sequence of tools, in order.
pub open spec fn tools_text(ts: Seq<ToolV>, base: Seq<char>) -> Seq<char>
    decreases ts.len(),
{
    if ts.len() == 0 {
        Seq::empty()
    } else {
        tools_text(ts.drop_last(), base) + lines_text(tool_script(ts.last(), base))
    }
}

/// The single base-image declaration line that opens the compiled output.
pub open spec fn from_line(base: Seq<char>) -> Seq<char> {
    "FROM "@ + base + seq!['\n']
}

/// The full compiled image definition: base-image line, init script, the
/// selected install script of each tool in catalog order, post script.
pub open spec fn dockerfile_text(c: ConfigV) -> Seq<char> {
    from_line(c.base_image) + lines_text(c.init_script) + tools_text(c.tools, c.base_image)
        + lines_text(c.post_script)
}

/// Turns borrowed string slices into owned strings, preserving the lines.
fn strs_to_strings(ss: &[&str]) -> (r: Vec<String>)
    ensures
        views_of_strings(r@) == views_of_strs(ss@),
{
    let mut r: Vec<String> = Vec::new();
    let mut i: usize = 0;
    while i < ss.len()
        invariant
            i <= ss@.len(),
            r@.len() == i,
            forall|j: int| 0 <= j < i ==> r@[j]@ == ss@[j]@,
        decreases ss@.len() - i,
    {
        r.push(String::from_str(ss[i]));
        i += 1;
    }
    assert(views_of_strings(r@) =~= views_of_strs(ss@));
    r
}

/// Clones a vector of strings, preserving its view.
fn clone_string_vec(v: &Vec<String>) -> (r: Vec<String>)
    ensures
        r@ == v@,
{
    let mut r: Vec<String> = Vec::new();
    let mut i: usize = 0;
    while i < v.len()
        invariant
            i <= v@.len(),
            r@ =~= v@.take(i as int),
        decreases v@.len() - i,
    {
        r.push(v[i].clone());
        assert(r@ =~= v@.take(i + 1 as int));
        i += 1;
    }
    assert(v@.take(v@.len() as int) =~= v@);
    r
}

/// Clones one install, preserving its view.
fn clone_install(t: &ToolInstall) -> (r: ToolInstall)
    ensures
        r@ == t@,
{
    ToolInstall { base_image: t.base_image.clone(), script: clone_string_vec(&t.script) }
}

/// Clones a slice of installs, preserving the views.
fn clone_installs(ts: &[ToolInstall]) -> (r: Vec<ToolInstall>)
    ensures
        r@.map_values(|i: ToolInstall| i@) == ts@.map_values(|i: ToolInstall| i@),
{
    let mut r: Vec<ToolInstall> = Vec::new();
    let mut i: usize = 0;
    while i < ts.len()
        invariant
            i <= ts@.len(),
            r@.len() == i,
            forall|j: int| 0 <= j < i ==> r@[j]@ == ts@[j]@,
        decreases ts@.len() - i,
    {
        r.push(clone_install(&ts[i]));
        i += 1;
    }
    assert(r@.map_values(|x: ToolInstall| x@) =~= ts@.map_values(|x: ToolInstall| x@));
    r
}

/// Clones one tool, preserving its view.
fn clone_tool(t: &Tool) -> (r: Tool)
    ensures
        r@ == t@,
{
    Tool { name: t.name.clone(), installs: clone_installs(t.installs.as_slice()) }
}

/// Clones a slice of tools, preserving the views.
fn clone_tools(ts: &[Tool]) -> (r: Vec<Tool>)
    ensures
        views_of_tools(r@) == ts@.map_values(|t: Tool| t@),
{
    let mut r: Vec<Tool> = Vec::new();
    let mut i: usize = 0;
    while i < ts.len()
        invariant
            i <= ts@.len(),
            r@.len() == i,
            forall|j: int| 0 <= j < i ==> r@[j]@ == ts@[j]@,
        decreases ts@.len() - i,
    {
        r.push(clone_tool(&ts[i]));
        i += 1;
    }
    assert(views_of_tools(r@) =~= ts@.map_values(|t: Tool| t@));
    r
}

impl ToolInstall {
    /// Builds an install recipe from a target base image and script lines.
    pub fn new(base_image: &str, script: &[&str]) -> (r: Self)
        ensures
            r@ == (ToolInstallV { base_image: base_image@, script: views_of_strs(script@) }),
    {
        Self { base_image: String::from_str(base_image), script: strs_to_strings(script) }
    }
}

impl Tool {
    /// Builds a tool from its name and its ordered install recipes.
    pub fn new(name: &str, installs: &[ToolInstall]) -> (r: Self)
        ensures
            r@ == (ToolV {
                name: name@,
                installs: installs@.map_values(|i: ToolInstall| i@),
            }),
    {
        Self { name: String::from_str(name), installs: clone_installs(installs) }
    }
}

impl Config {
    /// Builds a configuration from its four parts.
    pub fn new(base_image: &str, init_script: &[&str], tools: &[Tool], post_script: &[&str]) -> (r:
        Self)
        ensures
            r@ == (ConfigV {
                base_image: base_image@,
                init_script: views_of_strs(init_script@),
                post_script: views_of_strs(post_script@),
                tools: tools@.map_values(|t: Tool| t@),
            }),
    {
        Self {
            base_image: String::from_str(base_image),
            init_script: strs_to_strings(init_script),
            post_script: strs_to_strings(post_script),
            tools: clone_tools(tools),
        }
    }
}


/// Appends each line and a terminating newline to `out`.
fn push_lines(out: &mut String, lines: &Vec<String>)
    ensures
        final(out)@ == old(out)@ + lines_text(views_of_strings(lines@)),
{
    let ghost vs: Seq<Seq<char>> = views_of_strings(lines@);
    let mut i: usize = 0;
    while i < lines.len()
        invariant
            i <= lines@.len(),
            vs == views_of_strings(lines@),
            out@ == old(out)@ + lines_text(vs.take(i as int)),
        decreases lines@.len() - i,
    {
        out.append(lines[i].as_str());
        out.append("\n");
        proof {
            reveal_strlit("\n");
            assert(vs.take(i + 1) =~= vs.take(i as int).push(vs[i as int]));
            assert(vs.take(i + 1).drop_last() =~= vs.take(i as int));
            assert(lines_text(vs.take(i + 1)) == lines_text(vs.take(i as int)) + vs[i as int]
                + seq!['\n']);
            assert("\n"@ =~= seq!['\n']);
            assert(out@ =~= old(out)@ + lines_text(vs.take(i + 1)));
        }
        i += 1;
    }
    proof {
        assert(vs.take(lines@.len() as int) =~= vs);
    }
}

/// Finds the first install in `installs` whose target is `target`.
fn find_install_exec<'a>(installs: &'a Vec<ToolInstall>, target: &String) -> (r: Option<
    &'a ToolInstall,
>)
    ensures
        match r {
            Some(inst) => find_install(
                installs@.map_values(|x: ToolInstall| x@),
                target@,
            ) == Some(inst@),
            None => find_install(installs@.map_values(|x: ToolInstall| x@), target@) is None,
        },
{
    let ghost vs: Seq<ToolInstallV> = installs@.map_values(|x: ToolInstall| x@);
    let mut j: usize = 0;
    while j < installs.len()
        invariant
            j <= installs@.len(),
            vs == installs@.map_values(|x: ToolInstall| x@),
            find_install(vs, target@) == find_install_from(vs, target@, j as int),
        decreases installs@.len() - j,
    {
        if installs[j].base_image == *target {
            assert(vs[j as int].base_image == target@);
            return Some(&installs[j]);
        }
        assert(vs[j as int].base_image != target@);
        assert(find_install_from(vs, target@, j as int) == find_install_from(
            vs,
            target@,
            j + 1,
        ));
        j += 1;
    }
    None
}

/// Picks the install a tool contributes under `base`: first exact match,
/// else first wildcard, else none.
fn select_install<'a>(t: &'a Tool, base: &String) -> (r: Option<&'a ToolInstall>)
    ensures
        match r {
            Some(inst) => selected_install(t@, base@) == Some(inst@),
            None => selected_install(t@, base@) is None,
        },
{
    match find_install_exec(&t.installs, base) {
        Some(inst) => Some(inst),
        None => {
            let wildcard = String::from_str("default");
            assert(wildcard@ == wildcard_target());
            find_install_exec(&t.installs, &wildcard)
        },
    }
}

impl Config {
    /// Compiles the configuration into the image-definition text: the
    /// base-image line, the init script, each tool's selected install
    /// script in catalog order, and the post script, one line each.
    pub fn to_dockerfile(&self) -> (r: String)
        ensures
            r@ == dockerfile_text(self@),
    {
        let mut out = String::from_str("FROM ");
        out.append(self.base_image.as_str());
        out.append("\n");
        proof {
            reveal_strlit("\n");
            assert("\n"@ =~= seq!['\n']);
            assert(out@ =~= from_line(self@.base_image));
        }
        push_lines(&mut out, &self.init_script);
        let ghost head: Seq<char> = from_line(self@.base_image) + lines_text(self@.init_script);
        assert(out@ == head);
        let ghost tvs: Seq<ToolV> = self@.tools;
        let mut ti: usize = 0;
        while ti < self.tools.len()
            invariant
                ti <= self.tools@.len(),
                tvs == views_of_tools(self.tools@),
                out@ == head + tools_text(tvs.take(ti as int), self@.base_image),
                self@.base_image == self.base_image@,
            decreases self.tools@.len() - ti,
        {
            let tool = &self.tools[ti];
            assert(tool@ == tvs[ti as int]);
            let sel = select_install(tool, &self.base_image);
            proof {
                assert(tvs.take(ti + 1) =~= tvs.take(ti as int).push(tvs[ti as int]));
                assert(tvs.take(ti + 1).drop_last() =~= tvs.take(ti as int));
            }
            match sel {
                Some(inst) => {
                    push_lines(&mut out, &inst.script);
                    assert(tool_script(tvs[ti as int], self@.base_image) == inst@.script);
                    assert(out@ =~= head + tools_text(tvs.take(ti + 1), self@.base_image));
                },
                None => {
                    proof {
                        assert(tool_script(tvs[ti as int], self@.base_image) =~= Seq::<
                            Seq<char>,
                        >::empty());
                        assert(lines_text(Seq::<Seq<char>>::empty()) == Seq::<char>::empty());
                        assert(out@ =~= head + tools_text(tvs.take(ti + 1), self@.base_image));
                    }
                },
            }
            ti += 1;
        }
        proof {
            assert(tvs.take(self.tools@.len() as int) =~= tvs);
        }
        push_lines(&mut out, &self.post_script);
        proof {
            assert(out@ =~= dockerfile_text(self@));
        }
        out
    }
}


/// Compilation is pure: equal configurations compile to identical text.
pub proof fn lemma_compile_deterministic(a: ConfigV, b: ConfigV)
    requires
        a == b,
    ensures
        dockerfile_text(a) == dockerfile_text(b),
{
}

/// No install at or after `i` targets `target`, so the search finds none.
pub proof fn lemma_find_none(installs: Seq<ToolInstallV>, target: Seq<char>, i: int)
    requires
        forall|j: int| i <= j < installs.len() ==> installs[j].base_image != target,
    ensures
        find_install_from(installs, target, i) is None,
    decreases installs.len() - i,
{
    if 0 <= i < installs.len() {
        lemma_find_none(installs, target, i + 1);
    }
}

/// When a tool has an install that exactly targets the base image, the
/// compiled output carries exactly that install's lines, never the
/// wildcard's as well.
pub proof fn lemma_exact_match_wins(t: ToolV, base: Seq<char>)
    requires
        find_install(t.installs, base) is Some,
    ensures
        tool_script(t, base) == find_install(t.installs, base)->Some_0.script,
{
}

/// A tool whose installs all carry the wildcard target contributes its
/// first install's lines under every base image.
pub proof fn lemma_wildcard_applies(t: ToolV, base: Seq<char>)
    requires
        t.installs.len() > 0,
        forall|j: int| 0 <= j < t.installs.len() ==> t.installs[j].base_image == wildcard_target(),
    ensures
        tool_script(t, base) == t.installs[0].script,
{
    if base != wildcard_target() {
        lemma_find_none(t.installs, base, 0);
    }
}

/// A tool with neither an exact-match nor a wildcard install contributes
/// nothing, and compilation still succeeds (it is total).
pub proof fn lemma_unmatched_tool_silent(t: ToolV, base: Seq<char>)
    requires
        forall|j: int| 0 <= j < t.installs.len() ==> t.installs[j].base_image != base,
        forall|j: int| 0 <= j < t.installs.len() ==> t.installs[j].base_image
            != wildcard_target(),
    ensures
        tool_script(t, base) == Seq::<Seq<char>>::empty(),
{
    lemma_find_none(t.installs, base, 0);
    lemma_find_none(t.installs, wildcard_target(), 0);
}

/// The compiled output starts with the single base-image declaration line
/// and ends with the post-script lines, in order.
pub proof fn lemma_output_shape(c: ConfigV)
    ensures
        dockerfile_text(c) == from_line(c.base_image) + (lines_text(c.init_script) + tools_text(
            c.tools,
            c.base_image,
        )) + lines_text(c.post_script),
        dockerfile_text(c).take(from_line(c.base_image).len() as int) == from_line(c.base_image),
        dockerfile_text(c).skip(
            dockerfile_text(c).len() - lines_text(c.post_script).len(),
        ) == lines_text(c.post_script),
{
    assert(dockerfile_text(c) =~= from_line(c.base_image) + (lines_text(c.init_script)
        + tools_text(c.tools, c.base_image)) + lines_text(c.post_script));
    assert(dockerfile_text(c).take(from_line(c.base_image).len() as int) =~= from_line(
        c.base_image,
    ));
    assert(dockerfile_text(c).skip(dockerfile_text(c).len() - lines_text(c.post_script).len())
        =~= lines_text(c.post_script));
}


/// A tool whose single install carries the wildcard target.
pub open spec fn wtool(name: Seq<char>, script: Seq<Seq<char>>) -> ToolV {
    ToolV {
        name,
        installs: seq![ToolInstallV { base_image: wildcard_target(), script }],
    }
}

/// The init-script lines of the default configuration.
pub open spec fn default_init_lines() -> Seq<Seq<char>> {
    seq![
        "ENV DEBIAN_FRONTEND noninteractive"@,
        "ENV TZ Asia/Tokyo"@,
        "RUN apt update"@,
        "RUN apt-get update"@,
        "RUN apt install -y"@,
        "RUN mkdir /root/tools"@,
        "RUN mkdir /root/workspace"@,
        "RUN mkdir /root/.config"@,
    ]
}

/// The post-script lines of the default configuration.
pub open spec fn default_post_lines() -> Seq<Seq<char>> {
    seq!["RUN echo \"set -x LC_CTYPE C.UTF-8\" >> /root/.config/fish/config.fish"@]
}

/// The default tool catalog, in installation order.  Order matters: tools
/// with setup dependencies (the fish shell, whose configuration file later
/// aliasing lines append to) precede their dependents.
pub open spec fn default_tools() -> Seq<ToolV> {
    seq![
        wtool("build-essential"@, seq!["RUN apt install build-essential -y"@]),
        wtool("ca-certificates"@, seq!["RUN apt install ca-certificates -y"@]),
        wtool("libssl-dev"@, seq!["RUN apt install libssl-dev -y"@]),
        wtool("zlib1g-dev"@, seq!["RUN apt install zlib1g-dev -y"@]),
        wtool("libbz2-dev"@, seq!["RUN apt install libbz2-dev -y"@]),
        wtool("libreadline-dev"@, seq!["RUN apt install libreadline-dev -y"@]),
        wtool("libsqlite3-dev"@, seq!["RUN apt install libsqlite3-dev -y"@]),
        wtool("wget"@, seq!["RUN apt install wget -y"@]),
        wtool("curl"@, seq!["RUN apt install curl -y"@]),
        wtool("llvm"@, seq!["RUN apt install llvm -y"@]),
        wtool("make"@, seq!["RUN apt install make -y"@]),
        wtool("zip"@, seq!["RUN apt install zip -y"@]),
        wtool("unzip"@, seq!["RUN apt install unzip -y"@]),
        wtool("libncurses5-dev"@, seq!["RUN apt install libncurses5-dev -y"@]),
        wtool("libncursesw5-dev"@, seq!["RUN apt install libncursesw5-dev -y"@]),
        wtool("xz-utils"@, seq!["RUN apt install xz-utils -y"@]),
        wtool("tk-dev"@, seq!["RUN apt install tk-dev -y"@]),
        wtool("libxml2-dev"@, seq!["RUN apt install libxml2-dev -y"@]),
        wtool("libxmlsec1-dev"@, seq!["RUN apt install libxmlsec1-dev -y"@]),
        wtool("libffi-dev"@, seq!["RUN apt install libffi-dev -y"@]),
        wtool("liblzma-dev"@, seq!["RUN apt install liblzma-dev -y"@]),
        wtool("libyaml-dev"@, seq!["RUN apt install libyaml-dev -y"@]),
        wtool("python3"@, seq!["RUN apt install python3 -y"@]),
        wtool("python3-dev"@, seq!["RUN apt install python3-dev -y"@]),
        wtool("python3-pip"@, seq!["RUN apt install python3-pip -y"@]),
        wtool("gcc"@, seq!["RUN apt install gcc -y"@]),
        wtool("tree"@, seq!["RUN apt install tree -y"@]),
        wtool("git"@, seq!["RUN apt install git -y"@]),
        wtool("neovim"@, seq!["RUN apt install neovim -y"@]),
        wtool("neofetch"@, seq!["RUN apt install neofetch -y"@]),
        wtool("openssh-server"@, seq!["RUN apt install openssh-server -y"@]),
        wtool("patchelf"@, seq!["RUN apt install patchelf -y"@]),
        wtool("elfutils"@, seq!["RUN apt install elfutils -y"@]),
        wtool("psmisc"@, seq!["RUN apt install psmisc -y"@]),
        wtool("file"@, seq!["RUN apt install file -y"@]),
        wtool("devscripts"@, seq!["RUN apt install devscripts -y"@]),
        wtool(
            "fish"@,
            seq![
                "RUN apt install fish -y"@,
                "RUN chsh -s /bin/fish"@,
                "RUN mkdir /root/.config/fish"@,
            ],
        ),
        wtool("seccomp"@, seq!["RUN apt install libseccomp-dev libseccomp2 seccomp -y"@]),
        wtool("ruby"@, seq!["RUN apt install ruby-dev -y"@]),
        wtool(
            "pyenv"@,
            seq![
                "RUN git clone https://github.com/pyenv/pyenv.git $HOME/.pyenv"@,
                "RUN echo 'set -x PYENV_ROOT /root/.pyenv' >> /root/.config/fish/config.fish"@,
                "RUN echo 'set -x PATH  /root/.pyenv/bin $PATH' >> /root/.config/fish/config.fish"@,
                "RUN echo 'set -x PATH /root/.pyenv/shims $PATH' >> /root/.config/fish/config.fish"@,
                "RUN /root/.pyenv/bin/pyenv install pypy3.9-7.3.16"@,
                "RUN /root/.pyenv/bin/pyenv global pypy3.9-7.3.16"@,
                "ENV PATH $PATH:/root/.pyenv/shims/"@,
            ],
        ),
        wtool("ptrlib"@, seq!["RUN pip install ptrlib"@]),
        wtool("pwntools"@, seq!["RUN pip install pwntools"@]),
        wtool(
            "rust"@,
            seq![
                "RUN curl https://sh.rustup.rs -sSf | sh -s -- -y"@,
                "RUN echo 'set -x PATH /root/.cargo/bin $PATH' >> /root/.config/fish/config.fish"@,
                "ENV PATH $PATH:/root/.cargo/bin"@,
            ],
        ),
        wtool("ropr"@, seq!["RUN cargo install ropr"@]),
        wtool(
            "bat"@,
            seq![
                "RUN cargo install bat"@,
                "RUN echo 'alias bat=\"bat --theme=gruvbox-dark\"' >> /root/.config/fish/config.fish"@,
            ],
        ),
        wtool(
            "eza"@,
            seq![
                "RUN cargo install eza"@,
                "RUN echo 'alias ls=\"eza\"' >> /root/.config/fish/config.fish"@,
            ],
        ),
        wtool(
            "gdb"@,
            seq![
                "RUN apt install gdb -y"@,
                "WORKDIR /root/tools"@,
                "RUN git clone https://github.com/pwndbg/pwndbg"@,
                "WORKDIR /root/tools/pwndbg"@,
                "RUN ./setup.sh"@,
                "RUN echo '#!/bin/bash' > /usr/local/bin/ptr"@,
                "RUN echo 'gdb -q -p $(pidof $1)' >> /usr/local/bin/ptr"@,
                "RUN echo 'set follow-fork-mode parent' >> /root/.gdbinit"@,
            ],
        ),
        wtool("pwninit"@, seq!["RUN cargo install pwninit"@]),
        wtool("seccomp-tools"@, seq!["RUN gem install seccomp-tools --no-document --force"@]),
        wtool(
            "glibc"@,
            seq![
                "WORKDIR /root/"@,
                "RUN git clone https://github.com/bminor/glibc"@,
                "RUN ln -s /root/glibc /root/workspace/glibc"@,
                "WORKDIR /root/"@,
                "RUN git clone https://github.com/matrix1001/glibc-all-in-one"@,
                "RUN ln -s /root/glibc-all-in-one /root/workspace/glibc-all-in-one"@,
            ],
        ),
        wtool(
            "ripgrep"@,
            seq![
                "RUN apt install ripgrep -y"@,
                "RUN echo 'alias grep=\"rg\"' >> /root/.config/fish/config.fish"@,
            ],
        ),
    ]
}

/// The view of the whole default configuration.
pub open spec fn default_config() -> ConfigV {
    ConfigV {
        base_image: "amd64/ubuntu:22.04"@,
        init_script: default_init_lines(),
        post_script: default_post_lines(),
        tools: default_tools(),
    }
}

/// One script line as a vector.
fn s1(a: &str) -> (r: Vec<String>)
    ensures
        views_of_strings(r@) == seq![a@],
{
    let mut r: Vec<String> = Vec::new();
    r.push(String::from_str(a));
    assert(views_of_strings(r@) =~= seq![a@]);
    r
}

/// Two script lines as a vector.
fn s2(a: &str, b: &str) -> (r: Vec<String>)
    ensures
        views_of_strings(r@) == seq![a@, b@],
{
    let mut r: Vec<String> = Vec::new();
    r.push(String::from_str(a));
    r.push(String::from_str(b));
    assert(views_of_strings(r@) =~= seq![a@, b@]);
    r
}

/// Three script lines as a vector.
fn s3(a: &str, b: &str, c: &str) -> (r: Vec<String>)
    ensures
        views_of_strings(r@) == seq![a@, b@, c@],
{
    let mut r: Vec<String> = Vec::new();
    r.push(String::from_str(a));
    r.push(String::from_str(b));
    r.push(String::from_str(c));
    assert(views_of_strings(r@) =~= seq![a@, b@, c@]);
    r
}

/// Six script lines as a vector.
fn s6(a: &str, b: &str, c: &str, d: &str, e: &str, f: &str) -> (r: Vec<String>)
    ensures
        views_of_strings(r@) == seq![a@, b@, c@, d@, e@, f@],
{
    let mut r: Vec<String> = Vec::new();
    r.push(String::from_str(a));
    r.push(String::from_str(b));
    r.push(String::from_str(c));
    r.push(String::from_str(d));
    r.push(String::from_str(e));
    r.push(String::from_str(f));
    assert(views_of_strings(r@) =~= seq![a@, b@, c@, d@, e@, f@]);
    r
}

/// Seven script lines as a vector.
fn s7(a: &str, b: &str, c: &str, d: &str, e: &str, f: &str, g: &str) -> (r: Vec<String>)
    ensures
        views_of_strings(r@) == seq![a@, b@, c@, d@, e@, f@, g@],
{
    let mut r: Vec<String> = Vec::new();
    r.push(String::from_str(a));
    r.push(String::from_str(b));
    r.push(String::from_str(c));
    r.push(String::from_str(d));
    r.push(String::from_str(e));
    r.push(String::from_str(f));
    r.push(String::from_str(g));
    assert(views_of_strings(r@) =~= seq![a@, b@, c@, d@, e@, f@, g@]);
    r
}

/// Eight script lines as a vector.
fn s8(a: &str, b: &str, c: &str, d: &str, e: &str, f: &str, g: &str, h: &str) -> (r: Vec<String>)
    ensures
        views_of_strings(r@) == seq![a@, b@, c@, d@, e@, f@, g@, h@],
{
    let mut r: Vec<String> = Vec::new();
    r.push(String::from_str(a));
    r.push(String::from_str(b));
    r.push(String::from_str(c));
    r.push(String::from_str(d));
    r.push(String::from_str(e));
    r.push(String::from_str(f));
    r.push(String::from_str(g));
    r.push(String::from_str(h));
    assert(views_of_strings(r@) =~= seq![a@, b@, c@, d@, e@, f@, g@, h@]);
    r
}

/// A tool with a single wildcard install holding the given script.
fn wildcard_tool(name: &str, script: Vec<String>) -> (t: Tool)
    ensures
        t@ == wtool(name@, views_of_strings(script@)),
{
    let ghost sv: Seq<Seq<char>> = views_of_strings(script@);
    let mut installs: Vec<ToolInstall> = Vec::new();
    installs.push(ToolInstall { base_image: String::from_str("default"), script });
    let t = Tool { name: String::from_str(name), installs };
    proof {
        assert(t@.installs =~= wtool(name@, sv).installs);
    }
    t
}

impl Config {
    /// The configuration written on first run: an Ubuntu base image and the
    /// curated exploitation/research toolchain, in installation order.
    #[verifier::rlimit(100)]
    pub fn default() -> (r: Self)
        ensures
            r@ == default_config(),
    {
        let mut tools: Vec<Tool> = Vec::new();
        tools.push(wildcard_tool("build-essential", s1("RUN apt install build-essential -y")));
        tools.push(wildcard_tool("ca-certificates", s1("RUN apt install ca-certificates -y")));
        tools.push(wildcard_tool("libssl-dev", s1("RUN apt install libssl-dev -y")));
        tools.push(wildcard_tool("zlib1g-dev", s1("RUN apt install zlib1g-dev -y")));
        tools.push(wildcard_tool("libbz2-dev", s1("RUN apt install libbz2-dev -y")));
        tools.push(wildcard_tool("libreadline-dev", s1("RUN apt install libreadline-dev -y")));
        tools.push(wildcard_tool("libsqlite3-dev", s1("RUN apt install libsqlite3-dev -y")));
        tools.push(wildcard_tool("wget", s1("RUN apt install wget -y")));
        tools.push(wildcard_tool("curl", s1("RUN apt install curl -y")));
        tools.push(wildcard_tool("llvm", s1("RUN apt install llvm -y")));
        tools.push(wildcard_tool("make", s1("RUN apt install make -y")));
        tools.push(wildcard_tool("zip", s1("RUN apt install zip -y")));
        tools.push(wildcard_tool("unzip", s1("RUN apt install unzip -y")));
        tools.push(wildcard_tool("libncurses5-dev", s1("RUN apt install libncurses5-dev -y")));
        tools.push(wildcard_tool("libncursesw5-dev", s1("RUN apt install libncursesw5-dev -y")));
        tools.push(wildcard_tool("xz-utils", s1("RUN apt install xz-utils -y")));
        tools.push(wildcard_tool("tk-dev", s1("RUN apt install tk-dev -y")));
        tools.push(wildcard_tool("libxml2-dev", s1("RUN apt install libxml2-dev -y")));
        tools.push(wildcard_tool("libxmlsec1-dev", s1("RUN apt install libxmlsec1-dev -y")));
        tools.push(wildcard_tool("libffi-dev", s1("RUN apt install libffi-dev -y")));
        tools.push(wildcard_tool("liblzma-dev", s1("RUN apt install liblzma-dev -y")));
        tools.push(wildcard_tool("libyaml-dev", s1("RUN apt install libyaml-dev -y")));
        tools.push(wildcard_tool("python3", s1("RUN apt install python3 -y")));
        tools.push(wildcard_tool("python3-dev", s1("RUN apt install python3-dev -y")));
        tools.push(wildcard_tool("python3-pip", s1("RUN apt install python3-pip -y")));
        tools.push(wildcard_tool("gcc", s1("RUN apt install gcc -y")));
        tools.push(wildcard_tool("tree", s1("RUN apt install tree -y")));
        tools.push(wildcard_tool("git", s1("RUN apt install git -y")));
        tools.push(wildcard_tool("neovim", s1("RUN apt install neovim -y")));
        tools.push(wildcard_tool("neofetch", s1("RUN apt install neofetch -y")));
        tools.push(wildcard_tool("openssh-server", s1("RUN apt install openssh-server -y")));
        tools.push(wildcard_tool("patchelf", s1("RUN apt install patchelf -y")));
        tools.push(wildcard_tool("elfutils", s1("RUN apt install elfutils -y")));
        tools.push(wildcard_tool("psmisc", s1("RUN apt install psmisc -y")));
        tools.push(wildcard_tool("file", s1("RUN apt install file -y")));
        tools.push(wildcard_tool("devscripts", s1("RUN apt install devscripts -y")));
        tools.push(
            wildcard_tool(
                "fish",
                s3(
                    "RUN apt install fish -y",
                    "RUN chsh -s /bin/fish",
                    "RUN mkdir /root/.config/fish",
                ),
            ),
        );
        tools.push(
            wildcard_tool("seccomp", s1("RUN apt install libseccomp-dev libseccomp2 seccomp -y")),
        );
        tools.push(wildcard_tool("ruby", s1("RUN apt install ruby-dev -y")));
        tools.push(
            wildcard_tool(
                "pyenv",
                s7(
                    "RUN git clone https://github.com/pyenv/pyenv.git $HOME/.pyenv",
                    "RUN echo 'set -x PYENV_ROOT /root/.pyenv' >> /root/.config/fish/config.fish",
                    "RUN echo 'set -x PATH  /root/.pyenv/bin $PATH' >> /root/.config/fish/config.fish",
                    "RUN echo 'set -x PATH /root/.pyenv/shims $PATH' >> /root/.config/fish/config.fish",
                    "RUN /root/.pyenv/bin/pyenv install pypy3.9-7.3.16",
                    "RUN /root/.pyenv/bin/pyenv global pypy3.9-7.3.16",
                    "ENV PATH $PATH:/root/.pyenv/shims/",
                ),
            ),
        );
        tools.push(wildcard_tool("ptrlib", s1("RUN pip install ptrlib")));
        tools.push(wildcard_tool("pwntools", s1("RUN pip install pwntools")));
        tools.push(
            wildcard_tool(
                "rust",
                s3(
                    "RUN curl https://sh.rustup.rs -sSf | sh -s -- -y",
                    "RUN echo 'set -x PATH /root/.cargo/bin $PATH' >> /root/.config/fish/config.fish",
                    "ENV PATH $PATH:/root/.cargo/bin",
                ),
            ),
        );
        tools.push(wildcard_tool("ropr", s1("RUN cargo install ropr")));
        tools.push(
            wildcard_tool(
                "bat",
                s2(
                    "RUN cargo install bat",
                    "RUN echo 'alias bat=\"bat --theme=gruvbox-dark\"' >> /root/.config/fish/config.fish",
                ),
            ),
        );
        tools.push(
            wildcard_tool(
                "eza",
                s2(
                    "RUN cargo install eza",
                    "RUN echo 'alias ls=\"eza\"' >> /root/.config/fish/config.fish",
                ),
            ),
        );
        tools.push(
            wildcard_tool(
                "gdb",
                s8(
                    "RUN apt install gdb -y",
                    "WORKDIR /root/tools",
                    "RUN git clone https://github.com/pwndbg/pwndbg",
                    "WORKDIR /root/tools/pwndbg",
                    "RUN ./setup.sh",
                    "RUN echo '#!/bin/bash' > /usr/local/bin/ptr",
                    "RUN echo 'gdb -q -p $(pidof $1)' >> /usr/local/bin/ptr",
                    "RUN echo 'set follow-fork-mode parent' >> /root/.gdbinit",
                ),
            ),
        );
        tools.push(wildcard_tool("pwninit", s1("RUN cargo install pwninit")));
        tools.push(
            wildcard_tool("seccomp-tools", s1("RUN gem install seccomp-tools --no-document --force")),
        );
        tools.push(
            wildcard_tool(
                "glibc",
                s6(
                    "WORKDIR /root/",
                    "RUN git clone https://github.com/bminor/glibc",
                    "RUN ln -s /root/glibc /root/workspace/glibc",
                    "WORKDIR /root/",
                    "RUN git clone https://github.com/matrix1001/glibc-all-in-one",
                    "RUN ln -s /root/glibc-all-in-one /root/workspace/glibc-all-in-one",
                ),
            ),
        );
        tools.push(
            wildcard_tool(
                "ripgrep",
                s2(
                    "RUN apt install ripgrep -y",
                    "RUN echo 'alias grep=\"rg\"' >> /root/.config/fish/config.fish",
                ),
            ),
        );
        let init_script = s8(
            "ENV DEBIAN_FRONTEND noninteractive",
            "ENV TZ Asia/Tokyo",
            "RUN apt update",
            "RUN apt-get update",
            "RUN apt install -y",
            "RUN mkdir /root/tools",
            "RUN mkdir /root/workspace",
            "RUN mkdir /root/.config",
        );
        let post_script = s1(
            "RUN echo \"set -x LC_CTYPE C.UTF-8\" >> /root/.config/fish/config.fish",
        );
        let config = Config {
            base_image: String::from_str("amd64/ubuntu:22.04"),
            init_script,
            post_script,
            tools,
        };
        proof {
            assert(config@.tools =~= default_tools());
            assert(config@.init_script =~= default_init_lines());
            assert(config@.post_script =~= default_post_lines());
        }
        config
    }
}


impl ToolInstall {
    /// The base image this install targets.
    pub fn base_image(&self) -> (r: &String)
        ensures
            r@ == self@.base_image,
    {
        &self.base_image
    }

    /// The install's build-script lines.
    pub fn script(&self) -> (r: &Vec<String>)
        ensures
            views_of_strings(r@) == self@.script,
    {
        &self.script
    }
}

impl Tool {
    /// The tool's name.
    pub fn name(&self) -> (r: &String)
        ensures
            r@ == self@.name,
    {
        &self.name
    }

    /// The tool's ordered install recipes.
    pub fn installs(&self) -> (r: &Vec<ToolInstall>)
        ensures
            r@.map_values(|i: ToolInstall| i@) == self@.installs,
    {
        &self.installs
    }
}

impl Config {
    /// The configured base image.
    pub fn base_image(&self) -> (r: &String)
        ensures
            r@ == self@.base_image,
    {
        &self.base_image
    }

    /// The init-script lines.
    pub fn init_script(&self) -> (r: &Vec<String>)
        ensures
            views_of_strings(r@) == self@.init_script,
    {
        &self.init_script
    }

    /// The post-script lines.
    pub fn post_script(&self) -> (r: &Vec<String>)
        ensures
            views_of_strings(r@) == self@.post_script,
    {
        &self.post_script
    }

    /// The tool catalog, in order.
    pub fn tools(&self) -> (r: &Vec<Tool>)
        ensures
            views_of_tools(r@) == self@.tools,
    {
        &self.tools
    }
}

} // verus!
