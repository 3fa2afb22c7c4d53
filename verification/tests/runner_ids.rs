use solo2::dispatch::{ExtensionIds, BackendIds, ExtensionError};
use solo2::buttons::{Button, Press, State, WouldBlock};
use solo2::board::ClientError;
use solo2::hal::reg_proxy::{RegProxy, RegClusterProxy};
use solo2::hal::aligned::{Aligned, A4};

#[test]
fn extension_numbers() {
    for id in 0u8..=6 {
        assert_eq!(ExtensionIds::try_from(id).unwrap().id(), id);
    }
    assert_eq!(ExtensionIds::try_from(7), Err(ExtensionError::FunctionNotSupported));
    assert_eq!(ExtensionIds::Auth.backend(), BackendIds::Auth);
    assert_eq!(ExtensionIds::Hpke.backend(), BackendIds::StagingBackend);
}

struct Pads {
    a: bool,
    b: bool,
    middle: bool,
}

impl Press for Pads {
    fn can_read(&self, button: Button, pressed: bool) -> bool {
        self.is_pressed(button) == pressed
    }

    fn is_pressed(&self, button: Button) -> bool {
        match button {
            Button::A => self.a,
            Button::B => self.b,
            Button::Middle => self.middle,
        }
    }
}

#[test]
fn button_gestures() {
    let squeezed = Pads { a: true, b: true, middle: false };
    assert!(squeezed.is_squeezed());
    assert!(squeezed.is_released(Button::Middle));
    assert_eq!(squeezed.state(), State { a: true, b: true, middle: false });
    assert_eq!(squeezed.wait_for_all_release(), Err(WouldBlock::WouldBlock));
    assert_eq!(squeezed.wait_for_state(State { a: true, b: true, middle: false }), Ok(()));
    let idle = Pads { a: false, b: false, middle: false };
    assert_eq!(idle.wait_for_all_release(), Ok(()));
    assert!(!idle.is_squeezed());
    assert_ne!(ClientError::Full, ClientError::Pending);
}

#[test]
fn hardware_markers() {
    let _r: RegProxy<u32> = RegProxy::new();
    let _c: RegClusterProxy<u32> = RegClusterProxy::new();
    let mut a: solo2::hal::aligned::Aligned<A4, [u8; 4]> = Aligned([1, 2, 3, 4]);
    assert_eq!(a.value, [1, 2, 3, 4]);
    assert_eq!(*a, [1, 2, 3, 4]);
    a[0] = 9;
    assert_eq!(a.len(), 4);
    assert_eq!(a.value, [9, 2, 3, 4]);
}
