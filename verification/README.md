# rufs

A UFS (Universal Flash Storage) host-controller driver whose logic is
proved with Verus.

- `src/` is the verified library: the wire formats (UPIU, query and SCSI
  commands, descriptors, UTP transfer request descriptors, completion
  queue entries), the register fields, the single-doorbell and
  multi-circular-queue transports, the life of a request and the recovery
  of the controller, interrupt handling decisions, logical unit geometry,
  the host state machine, and the Qualcomm and PCI platform knowledge.
  Each public function carries a contract; the properties that span
  several calls are stated and proved as `lemma_*` proof functions next to
  the functions they speak of.
- `tests/` runs the library on concrete values.
- `app/` is the kernel side: module registration, register and DMA
  access, interrupt lines, the block layer, clocks and PHYs. It performs
  the I/O, hands the library plain values and acts on the library's
  decisions. What it decides itself is how to react when a kernel call
  fails: it passes the error on, or, when per-queue interrupt lines cannot
  be set up, keeps completions on the shared interrupt handler. It builds
  only inside a kernel tree.
