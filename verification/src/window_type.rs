//! The window-type catalog tags: one tag per logical application screen.

use vstd::prelude::*;
use vstd::string::StringExecFns;

verus! {

/// A logical application screen. Each type has a fixed configuration and at
/// most one live window instance at any time; its label is the unique
/// registry key and message-routing target.
#[derive(Debug, Clone, Copy, PartialEq, Eq, Hash, Structural)]
pub enum WindowType {
    Launcher,
    Login,
    CallOutbound,
    CallInbound,
    CallBot,
    ChatBot,
    QueueMonitor,
    Statistics,
    Settings,
    ShareTaskInfo,
    CompanyChat,
}

impl WindowType {
    /// The unique stable label of this window type.
    pub open spec fn spec_label(self) -> Seq<char> {
        match self {
            WindowType::Launcher => "launcher"@,
            WindowType::Login => "login"@,
            WindowType::CallOutbound => "call_outbound"@,
            WindowType::CallInbound => "call_inbound"@,
            WindowType::CallBot => "call_bot"@,
            WindowType::ChatBot => "chat_bot"@,
            WindowType::QueueMonitor => "queue_monitor"@,
            WindowType::Statistics => "statistics"@,
            WindowType::Settings => "settings"@,
            WindowType::ShareTaskInfo => "share_task_info"@,
            WindowType::CompanyChat => "company_chat"@,
        }
    }

    pub fn as_str(&self) -> (r: &'static str)
        ensures
            r@ == self.spec_label(),
    {
        match self {
            WindowType::Launcher => "launcher",
            WindowType::Login => "login",
            WindowType::CallOutbound => "call_outbound",
            WindowType::CallInbound => "call_inbound",
            WindowType::CallBot => "call_bot",
            WindowType::ChatBot => "chat_bot",
            WindowType::QueueMonitor => "queue_monitor",
            WindowType::Statistics => "statistics",
            WindowType::Settings => "settings",
            WindowType::ShareTaskInfo => "share_task_info",
            WindowType::CompanyChat => "company_chat",
        }
    }

    /// The registry key of this window type; identical to `as_str`.
    pub fn to_label(&self) -> (r: &'static str)
        ensures
            r@ == self.spec_label(),
    {
        self.as_str()
    }

    /// The window title shown by the backend.
    pub open spec fn spec_title(self) -> Seq<char> {
        match self {
            WindowType::Launcher => "Nexus Call Hub - 런처"@,
            WindowType::Login => "Nexus Call Hub - 로그인"@,
            WindowType::CallOutbound => "Nexus Call Hub - 아웃바운드 영업"@,
            WindowType::CallInbound => "Nexus Call Hub - 인바운드 상담"@,
            WindowType::CallBot => "Nexus Call Hub - AI 콜봇"@,
            WindowType::ChatBot => "Nexus Call Hub - 챗봇 테스트"@,
            WindowType::QueueMonitor => "Nexus Call Hub - 실시간 대기열"@,
            WindowType::Statistics => "Nexus Call Hub - 통계 대시보드"@,
            WindowType::Settings => "Nexus Call Hub - 환경설정"@,
            WindowType::ShareTaskInfo => "공유 업무 정보"@,
            WindowType::CompanyChat => "Nexus Call Hub - Company Chat"@,
        }
    }

    pub fn title(&self) -> (r: &'static str)
        ensures
            r@ == self.spec_title(),
    {
        match self {
            WindowType::Launcher => "Nexus Call Hub - 런처",
            WindowType::Login => "Nexus Call Hub - 로그인",
            WindowType::CallOutbound => "Nexus Call Hub - 아웃바운드 영업",
            WindowType::CallInbound => "Nexus Call Hub - 인바운드 상담",
            WindowType::CallBot => "Nexus Call Hub - AI 콜봇",
            WindowType::ChatBot => "Nexus Call Hub - 챗봇 테스트",
            WindowType::QueueMonitor => "Nexus Call Hub - 실시간 대기열",
            WindowType::Statistics => "Nexus Call Hub - 통계 대시보드",
            WindowType::Settings => "Nexus Call Hub - 환경설정",
            WindowType::ShareTaskInfo => "공유 업무 정보",
            WindowType::CompanyChat => "Nexus Call Hub - Company Chat",
        }
    }

    /// The content route loaded into the window: its own HTML entry point.
    pub open spec fn spec_url(self) -> Seq<char> {
        self.spec_label() + ".html"@
    }

    pub fn url(&self) -> (r: String)
        ensures
            r@ == self.spec_url(),
    {
        let label: String = self.as_str().to_owned();
        label.concat(".html")
    }

    /// The default inner size (width, height) a window of this type opens at.
    pub open spec fn spec_size(self) -> (u32, u32) {
        match self {
            WindowType::Launcher => (400u32, 600u32),
            WindowType::Login => (450u32, 500u32),
            WindowType::CallOutbound => (350u32, 500u32),
            WindowType::CallInbound => (350u32, 400u32),
            WindowType::CallBot => (1100u32, 800u32),
            WindowType::ChatBot => (1200u32, 900u32),
            WindowType::QueueMonitor => (1000u32, 700u32),
            WindowType::Statistics => (1000u32, 700u32),
            WindowType::Settings => (600u32, 500u32),
            WindowType::ShareTaskInfo => (1920u32, 1080u32),
            WindowType::CompanyChat => (1200u32, 800u32),
        }
    }

    pub fn size(&self) -> (r: (u32, u32))
        ensures
            r == self.spec_size(),
    {
        match self {
            WindowType::Launcher => (400, 600),
            WindowType::Login => (450, 500),
            WindowType::CallOutbound => (350, 500),
            WindowType::CallInbound => (350, 400),
            WindowType::CallBot => (1100, 800),
            WindowType::ChatBot => (1200, 900),
            WindowType::QueueMonitor => (1000, 700),
            WindowType::Statistics => (1000, 700),
            WindowType::Settings => (600, 500),
            WindowType::ShareTaskInfo => (1920, 1080),
            WindowType::CompanyChat => (1200, 800),
        }
    }

    /// The smallest inner size a window of this type may be resized to.
    pub open spec fn spec_min_size(self) -> (u32, u32) {
        match self {
            WindowType::Launcher => (380u32, 500u32),
            WindowType::Login => (400u32, 450u32),
            WindowType::CallOutbound => (320u32, 450u32),
            WindowType::CallInbound => (320u32, 350u32),
            WindowType::CallBot => (900u32, 600u32),
            WindowType::ChatBot => (1000u32, 700u32),
            WindowType::QueueMonitor => (800u32, 500u32),
            WindowType::Statistics => (800u32, 600u32),
            WindowType::Settings => (500u32, 400u32),
            WindowType::ShareTaskInfo => (1280u32, 800u32),
            WindowType::CompanyChat => (900u32, 600u32),
        }
    }

    pub fn min_size(&self) -> (r: (u32, u32))
        ensures
            r == self.spec_min_size(),
    {
        match self {
            WindowType::Launcher => (380, 500),
            WindowType::Login => (400, 450),
            WindowType::CallOutbound => (320, 450),
            WindowType::CallInbound => (320, 350),
            WindowType::CallBot => (900, 600),
            WindowType::ChatBot => (1000, 700),
            WindowType::QueueMonitor => (800, 500),
            WindowType::Statistics => (800, 600),
            WindowType::Settings => (500, 400),
            WindowType::ShareTaskInfo => (1280, 800),
            WindowType::CompanyChat => (900, 600),
        }
    }

    /// The largest inner size, for the types that bound it.
    pub open spec fn spec_max_size(self) -> Option<(u32, u32)> {
        match self {
            WindowType::Launcher => Option::Some((450u32, 700u32)),
            _ => Option::None,
        }
    }

    pub fn max_size(&self) -> (r: Option<(u32, u32)>)
        ensures
            r == self.spec_max_size(),
    {
        match self {
            WindowType::Launcher => Option::Some((450, 700)),
            _ => Option::None,
        }
    }

    /// Whether the user may resize a window of this type.
    pub open spec fn spec_resizable(self) -> bool {
        !(self is Login)
    }

    pub fn is_resizable(&self) -> (r: bool)
        ensures
            r == self.spec_resizable(),
    {
        match self {
            WindowType::Login => false,
            _ => true,
        }
    }

    /// Whether a window of this type stays above the others.
    pub open spec fn spec_always_on_top(self) -> bool {
        self is Login || self is CallOutbound || self is CallInbound
    }

    pub fn always_on_top(&self) -> (r: bool)
        ensures
            r == self.spec_always_on_top(),
    {
        match self {
            WindowType::Login => true,
            WindowType::CallOutbound => true,
            WindowType::CallInbound => true,
            _ => false,
        }
    }

    /// Offset from the screen centre at which the window is first placed;
    /// nothing means dead centre.
    pub open spec fn spec_position_offset(self) -> Option<(i32, i32)> {
        match self {
            WindowType::CallInbound => Option::Some((100i32, 50i32)),
            WindowType::CallOutbound => Option::Some((-100i32, 50i32)),
            WindowType::CallBot => Option::Some((0i32, 100i32)),
            WindowType::QueueMonitor => Option::Some((0i32, -100i32)),
            WindowType::Statistics => Option::Some((150i32, 100i32)),
            _ => Option::None,
        }
    }

    pub fn default_position_offset(&self) -> (r: Option<(i32, i32)>)
        ensures
            r == self.spec_position_offset(),
    {
        match self {
            WindowType::CallInbound => Option::Some((100, 50)),
            WindowType::CallOutbound => Option::Some((-100, 50)),
            WindowType::CallBot => Option::Some((0, 100)),
            WindowType::QueueMonitor => Option::Some((0, -100)),
            WindowType::Statistics => Option::Some((150, 100)),
            _ => Option::None,
        }
    }
}

impl Default for WindowType {
    /// The screen shown when nothing else has been requested yet.
    fn default() -> (r: Self)
        ensures
            r == WindowType::Login,
    {
        WindowType::Login
    }
}

} // verus!
