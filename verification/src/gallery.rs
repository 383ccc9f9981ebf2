//! The gallery shell: the sidebar table of demos and the switcher.
//!
//! The sidebar lists every demo under its category; clicking one asks for
//! that demo to be constructed and installs the outcome as the single
//! active demo, discarding the previous one wholesale.  Construction
//! itself happens at the GPU edge; the gallery records its outcome and
//! tracks the resource generations, so it can be said — and is proved in
//! [`lemma_switch_leaves_no_residual`] — that switching leaves no
//! reference to the previous demo's resources behind.

use vstd::prelude::*;

verus! {

/// The category a demo is listed under in the sidebar.
#[derive(Clone, Copy, PartialEq, Eq, Structural)]
pub enum AppType {
    BasicGraphics,
    WebGPUFeatures,
    GPGPUDemos,
    GraphicsTechniques,
    Benchmarks,
}

impl AppType {
    /// The heading the sidebar shows for the category.
    pub fn label(&self) -> (r: String)
        ensures
            *self == AppType::BasicGraphics ==> r@ == "Basic Graphics"@,
            *self == AppType::WebGPUFeatures ==> r@ == "WebGPU Features"@,
            *self == AppType::GPGPUDemos ==> r@ == "GPGPU Demos"@,
            *self == AppType::GraphicsTechniques ==> r@ == "Graphics Techniques"@,
            *self == AppType::Benchmarks ==> r@ == "Benchmarks"@,
    {
        match self {
            AppType::BasicGraphics => "Basic Graphics".to_owned(),
            AppType::WebGPUFeatures => "WebGPU Features".to_owned(),
            AppType::GPGPUDemos => "GPGPU Demos".to_owned(),
            AppType::GraphicsTechniques => "Graphics Techniques".to_owned(),
            AppType::Benchmarks => "Benchmarks".to_owned(),
        }
    }
}

/// One entry of the gallery: the link name shown in the sidebar, its
/// category, and whether the demo is implemented.  Entries still in
/// progress stay in the menu but construct nothing.
pub struct DemoEntry {
    pub name: String,
    pub category: AppType,
    pub available: bool,
}

/// The mathematical content of a [`DemoEntry`].
pub struct DemoEntryS {
    pub name: Seq<char>,
    pub category: AppType,
    pub available: bool,
}

impl View for DemoEntry {
    type V = DemoEntryS;

    open spec fn view(&self) -> DemoEntryS {
        DemoEntryS { name: self.name@, category: self.category, available: self.available }
    }
}

/// Shorthand for one row of [`table`].
pub open spec fn entry_s(name: Seq<char>, category: AppType, available: bool) -> DemoEntryS {
    DemoEntryS { name, category, available }
}

/// The full sidebar table, in display order.
pub open spec fn table() -> Seq<DemoEntryS> {
    seq![
        entry_s("helloTriangle"@, AppType::BasicGraphics, true),
        entry_s("helloTriangleMSAA(WIP)"@, AppType::BasicGraphics, false),
        entry_s("rotatingCube"@, AppType::BasicGraphics, true),
        entry_s("twoCubes"@, AppType::BasicGraphics, true),
        entry_s("texturedCube"@, AppType::BasicGraphics, true),
        entry_s("instancedCube(WIP)"@, AppType::BasicGraphics, false),
        entry_s("fractalCube(WIP)"@, AppType::BasicGraphics, false),
        entry_s("cubemap(WIP)"@, AppType::BasicGraphics, false),
        entry_s("samplerParameters(WIP)"@, AppType::WebGPUFeatures, false),
        entry_s("reversedZ(WIP)"@, AppType::WebGPUFeatures, false),
        entry_s("renderBundles(WIP)"@, AppType::WebGPUFeatures, false),
        entry_s("computeBoids(WIP)"@, AppType::GPGPUDemos, false),
        entry_s("gameOfLife(WIP)"@, AppType::GPGPUDemos, false),
        entry_s("bitonicSort(WIP)"@, AppType::GPGPUDemos, false),
        entry_s("cameras(WIP)"@, AppType::GraphicsTechniques, false),
        entry_s("normalMap(WIP)"@, AppType::GraphicsTechniques, false),
        entry_s("shadowMapping(WIP)"@, AppType::GraphicsTechniques, false),
        entry_s("deferredRendering(WIP)"@, AppType::GraphicsTechniques, false),
        entry_s("particles(WIP)"@, AppType::GraphicsTechniques, false),
        entry_s("points(WIP)"@, AppType::GraphicsTechniques, false),
        entry_s("imageBlur(WIP)"@, AppType::GraphicsTechniques, false),
        entry_s("cornell(WIP)"@, AppType::GraphicsTechniques, false),
        entry_s("a-buffer(WIP)"@, AppType::GraphicsTechniques, false),
        entry_s("skinnedMesh(WIP)"@, AppType::GraphicsTechniques, false),
        entry_s("textRenderingMsdf(WIP)"@, AppType::GraphicsTechniques, false),
        entry_s("volumeRenderingTexture3D(WIP)"@, AppType::GraphicsTechniques, false),
        entry_s("animometer(WIP)"@, AppType::Benchmarks, false),
    ]
}

/// The sidebar table of demos.
pub struct Registry {
    pub entries: Vec<DemoEntry>,
}

impl View for Registry {
    type V = Seq<DemoEntryS>;

    open spec fn view(&self) -> Seq<DemoEntryS> {
        Seq::new(self.entries@.len(), |i: int| self.entries@[i]@)
    }
}

impl Registry {
    /// The registry holding exactly the demos of [`table`].
    pub fn new() -> (r: Registry)
        ensures
            r@ == table(),
    {
        let mut entries: Vec<DemoEntry> = Vec::new();
        entries.push(DemoEntry { name: "helloTriangle".to_owned(), category: AppType::BasicGraphics, available: true });
        entries.push(DemoEntry { name: "helloTriangleMSAA(WIP)".to_owned(), category: AppType::BasicGraphics, available: false });
        entries.push(DemoEntry { name: "rotatingCube".to_owned(), category: AppType::BasicGraphics, available: true });
        entries.push(DemoEntry { name: "twoCubes".to_owned(), category: AppType::BasicGraphics, available: true });
        entries.push(DemoEntry { name: "texturedCube".to_owned(), category: AppType::BasicGraphics, available: true });
        entries.push(DemoEntry { name: "instancedCube(WIP)".to_owned(), category: AppType::BasicGraphics, available: false });
        entries.push(DemoEntry { name: "fractalCube(WIP)".to_owned(), category: AppType::BasicGraphics, available: false });
        entries.push(DemoEntry { name: "cubemap(WIP)".to_owned(), category: AppType::BasicGraphics, available: false });
        entries.push(DemoEntry { name: "samplerParameters(WIP)".to_owned(), category: AppType::WebGPUFeatures, available: false });
        entries.push(DemoEntry { name: "reversedZ(WIP)".to_owned(), category: AppType::WebGPUFeatures, available: false });
        entries.push(DemoEntry { name: "renderBundles(WIP)".to_owned(), category: AppType::WebGPUFeatures, available: false });
        entries.push(DemoEntry { name: "computeBoids(WIP)".to_owned(), category: AppType::GPGPUDemos, available: false });
        entries.push(DemoEntry { name: "gameOfLife(WIP)".to_owned(), category: AppType::GPGPUDemos, available: false });
        entries.push(DemoEntry { name: "bitonicSort(WIP)".to_owned(), category: AppType::GPGPUDemos, available: false });
        entries.push(DemoEntry { name: "cameras(WIP)".to_owned(), category: AppType::GraphicsTechniques, available: false });
        entries.push(DemoEntry { name: "normalMap(WIP)".to_owned(), category: AppType::GraphicsTechniques, available: false });
        entries.push(DemoEntry { name: "shadowMapping(WIP)".to_owned(), category: AppType::GraphicsTechniques, available: false });
        entries.push(DemoEntry { name: "deferredRendering(WIP)".to_owned(), category: AppType::GraphicsTechniques, available: false });
        entries.push(DemoEntry { name: "particles(WIP)".to_owned(), category: AppType::GraphicsTechniques, available: false });
        entries.push(DemoEntry { name: "points(WIP)".to_owned(), category: AppType::GraphicsTechniques, available: false });
        entries.push(DemoEntry { name: "imageBlur(WIP)".to_owned(), category: AppType::GraphicsTechniques, available: false });
        entries.push(DemoEntry { name: "cornell(WIP)".to_owned(), category: AppType::GraphicsTechniques, available: false });
        entries.push(DemoEntry { name: "a-buffer(WIP)".to_owned(), category: AppType::GraphicsTechniques, available: false });
        entries.push(DemoEntry { name: "skinnedMesh(WIP)".to_owned(), category: AppType::GraphicsTechniques, available: false });
        entries.push(DemoEntry { name: "textRenderingMsdf(WIP)".to_owned(), category: AppType::GraphicsTechniques, available: false });
        entries.push(DemoEntry { name: "volumeRenderingTexture3D(WIP)".to_owned(), category: AppType::GraphicsTechniques, available: false });
        entries.push(DemoEntry { name: "animometer(WIP)".to_owned(), category: AppType::Benchmarks, available: false });
        let r = Registry { entries };
        proof {
            assert(r@ =~= table());
        }
        r
    }

    /// How many demos the sidebar lists.
    pub fn len(&self) -> (n: usize)
        ensures
            n == self@.len(),
    {
        self.entries.len()
    }

    /// The first entry whose link name is `name`, if any.  Link names are
    /// unique in the table, so this is the clicked entry.
    pub fn find(&self, name: &str) -> (r: Option<usize>)
        ensures
            match r {
                Some(i) => i < self@.len() && self@[i as int].name == name@ && forall|j: int|
                    0 <= j < i as int ==> (#[trigger] self@[j]).name != name@,
                None => forall|j: int| 0 <= j < self@.len() ==> (#[trigger] self@[j]).name != name@,
            },
    {
        let name_owned: String = name.to_owned();
        let n = self.entries.len();
        let mut i: usize = 0;
        while i < n
            invariant
                i <= n,
                n == self@.len(),
                name_owned@ == name@,
                forall|j: int| 0 <= j < i as int ==> (#[trigger] self@[j]).name != name@,
            decreases n - i,
        {
            if self.entries[i].name == name_owned {
                return Some(i);
            }
            i += 1;
        }
        None
    }

    /// The category of entry `i`.
    pub fn category_of(&self, i: usize) -> (c: AppType)
        requires
            i < self@.len(),
        ensures
            c == self@[i as int].category,
    {
        self.entries[i].category
    }

    /// Whether entry `i` is implemented.
    pub fn is_available(&self, i: usize) -> (b: bool)
        requires
            i < self@.len(),
        ensures
            b == self@[i as int].available,
    {
        self.entries[i].available
    }

    /// The link name of entry `i`.
    pub fn name_of(&self, i: usize) -> (n: String)
        requires
            i < self@.len(),
        ensures
            n@ == self@[i as int].name,
    {
        self.entries[i].name.clone()
    }

    /// The indices of the entries listed under `category`, in sidebar
    /// order: exactly the entries of that category, each once, ascending.
    pub fn entries_in_category(&self, category: AppType) -> (r: Vec<usize>)
        ensures
            forall|k: int|
                0 <= k < r@.len() ==> (#[trigger] r@[k]) < self@.len() && self@[r@[k] as int].category
                    == category,
            forall|k1: int, k2: int| 0 <= k1 < k2 < r@.len() ==> r@[k1] < r@[k2],
            forall|j: int|
                0 <= j < self@.len() && (#[trigger] self@[j]).category == category ==> exists|k: int|
                    0 <= k < r@.len() && r@[k] == j,
    {
        let n = self.entries.len();
        let mut out: Vec<usize> = Vec::new();
        let mut i: usize = 0;
        while i < n
            invariant
                i <= n,
                n == self@.len(),
                forall|k: int|
                    0 <= k < out@.len() ==> (#[trigger] out@[k]) < i && self@[out@[k] as int].category
                        == category,
                forall|k1: int, k2: int| 0 <= k1 < k2 < out@.len() ==> out@[k1] < out@[k2],
                forall|j: int|
                    0 <= j < i as int && (#[trigger] self@[j]).category == category ==> exists|k: int|
                        0 <= k < out@.len() && out@[k] == j,
            decreases n - i,
        {
            if self.entries[i].category == category {
                let ghost old_out = out@;
                out.push(i);
                proof {
                    assert forall|j: int|
                        0 <= j < i as int + 1 && (#[trigger] self@[j]).category
                            == category implies exists|k: int|
                        0 <= k < out@.len() && out@[k] == j by {
                        if j == i as int {
                            assert(out@[old_out.len() as int] == i);
                        } else {
                            let k0 = choose|k: int| 0 <= k < old_out.len() && old_out[k] == j;
                            assert(out@[k0] == j);
                        }
                    }
                }
            }
            i += 1;
        }
        out
    }
}

/// A constructed demo held by the gallery: the entry it came from and the
/// generation of the GPU resource set allocated for it.  Every
/// construction allocates a fresh set, so the generation tells two
/// activations apart even of the same entry.
#[derive(Clone, Copy, Debug, PartialEq, Eq, Structural)]
pub struct DemoHandle {
    pub entry: usize,
    pub resources: u64,
}

/// The gallery state: at most one active demo, and the generation the
/// next construction will receive.
pub struct MainApp {
    pub current_app: Option<DemoHandle>,
    pub next_resources: u64,
}

/// Whatever handle the gallery holds was allocated before the next
/// generation.
pub open spec fn main_app_wf(g: MainApp) -> bool {
    match g.current_app {
        Some(h) => h.resources < g.next_resources,
        None => true,
    }
}

/// What selecting entry `entry` does to the gallery: a successful
/// construction installs a fresh handle; a failed or unimplemented one
/// leaves no active demo.  Either way the previous demo is gone.
pub open spec fn switch_s(g: MainApp, entry: usize, built: bool) -> MainApp {
    if built {
        MainApp {
            current_app: Some(DemoHandle { entry, resources: g.next_resources }),
            next_resources: (g.next_resources + 1) as u64,
        }
    } else {
        MainApp { current_app: None, next_resources: g.next_resources }
    }
}

impl MainApp {
    /// A gallery with no active demo.
    pub fn new() -> (g: MainApp)
        ensures
            g.current_app == None::<DemoHandle>,
            g.next_resources == 0,
            main_app_wf(g),
    {
        MainApp { current_app: None, next_resources: 0 }
    }

    /// Installs the outcome of selecting `entry`: `built` says whether its
    /// constructor produced a demo.  The previously active demo, if any,
    /// leaves the gallery wholesale.
    pub fn switch_app(&mut self, entry: usize, built: bool)
        requires
            main_app_wf(*old(self)),
            old(self).next_resources < u64::MAX,
        ensures
            *final(self) == switch_s(*old(self), entry, built),
            main_app_wf(*final(self)),
            old(self).current_app is Some ==> final(self).current_app != old(self).current_app,
    {
        if built {
            self.current_app = Some(DemoHandle { entry, resources: self.next_resources });
            self.next_resources = self.next_resources + 1;
        } else {
            self.current_app = None;
        }
    }
}

/// Selecting a demo and then selecting another leaves no reference to the
/// first selection's resources: whatever the gallery holds after the
/// second switch, it is not the handle the first switch installed — even
/// when both clicks name the same entry, the second construction's
/// resources are a fresh generation.
pub proof fn lemma_switch_leaves_no_residual(g: MainApp, e1: usize, b1: bool, e2: usize, b2: bool)
    requires
        main_app_wf(g),
        g.next_resources + 2 <= u64::MAX,
    ensures
        main_app_wf(switch_s(g, e1, b1)),
        main_app_wf(switch_s(switch_s(g, e1, b1), e2, b2)),
        switch_s(g, e1, b1).current_app is Some ==> switch_s(switch_s(g, e1, b1), e2, b2).current_app
            != switch_s(g, e1, b1).current_app,
{
}

} // verus!
