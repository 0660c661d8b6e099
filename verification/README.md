# rt_shm

Shared-memory IPC between the application cores and a real-time core: the
driver behind `/dev/rt_shm`, and the interrupt routing that it rests on.

The library in `src/` is verified with Verus. It touches no hardware. Where the
driver has to act, a function returns the actions to perform; where it has to
look at the hardware, a program asks for one access at a time and is told what
came back. `app/` performs the actions and hands the answers in.

| Modules | What they hold |
|---|---|
| `driver`, `channels` | the driver core, its capabilities, the look at a channel |
| `mailbox`, `ack`, `reset`, `selftest`, `notifier` | the hardware mailbox and the doorbells |
| `coherence`, `wait` | cache synchronisation and blocking waits |
| `config`, `device`, `vfs` | the device tree, the device and its operations |
| `irq`, `plat` | interrupt numbers and routing on RISC-V |
| `mapping`, `pte_x64`, `pte_rv64` | page attributes and page table entries |
| `ack_laws`, `mailbox_hw`, `cache_model`, `wait_model` | models of the hardware and of a waiting task, and what is proved of them |

The outside crates stand behind small wrappers whose contracts are believed, not
proved: in `channels` for the channel library, in `vfs` for the numbers of the
file system layer.
